use vstd::prelude::*;

verus! {

/// The size of one cell of a sprite sheet `image_width` by `image_height`
/// pixels that holds `columns` by `rows` sprites, where the sheet divides
/// evenly into them.
pub fn sprite_size(image_width: u32, image_height: u32, columns: u32, rows: u32) -> (r: Option<(u32, u32)>)
    ensures
        r is Some <==> (columns > 0 && rows > 0 && image_width % columns == 0 && image_height % rows == 0),
        r matches Some(size) ==> size.0 * columns == image_width && size.1 * rows == image_height,
{
    if columns == 0 || rows == 0 || image_width % columns != 0 || image_height % rows != 0 {
        return None;
    }
    let w = image_width / columns;
    let h = image_height / rows;
    proof {
        assert(w * columns == image_width) by (nonlinear_arith)
            requires
                w == image_width / columns,
                image_width % columns == 0,
                columns > 0,
        ;
        assert(h * rows == image_height) by (nonlinear_arith)
            requires
                h == image_height / rows,
                image_height % rows == 0,
                rows > 0,
        ;
    }
    Some((w, h))
}

} // verus!
