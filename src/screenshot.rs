use vstd::prelude::*;

verus! {

/// Image formats that a screenshot can be saved in.
#[derive(Clone, Copy, Debug, PartialEq, Eq, Structural)]
pub enum Format {
    Jpeg,
    Png,
}

pub open spec fn extension_spec(f: Format) -> Seq<char> {
    match f {
        Format::Jpeg => seq!['j', 'p', 'e', 'g'],
        Format::Png => seq!['p', 'n', 'g'],
    }
}

pub open spec fn digit_char(d: nat) -> char {
    if d == 0 {
        '0'
    } else if d == 1 {
        '1'
    } else if d == 2 {
        '2'
    } else if d == 3 {
        '3'
    } else if d == 4 {
        '4'
    } else if d == 5 {
        '5'
    } else if d == 6 {
        '6'
    } else if d == 7 {
        '7'
    } else if d == 8 {
        '8'
    } else {
        '9'
    }
}

/// A number in decimal, without sign or leading zeros.
pub open spec fn decimal(n: nat) -> Seq<char>
    decreases n,
{
    if n < 10 {
        seq![digit_char(n)]
    } else {
        decimal(n / 10).push(digit_char(n % 10))
    }
}

/// Relies on `u32`'s `Display`, through `ToString::to_string`: an unsigned
/// integer is written in decimal, without sign or leading zeros.
#[verifier::external_body]
fn decimal_string(n: u32) -> (r: String)
    ensures
        r@ == decimal(n as nat),
{
    n.to_string()
}

impl Format {
    /// The file extension of the format.
    pub fn extension(&self) -> (r: &'static str)
        ensures
            r@ == extension_spec(*self),
    {
        match self {
            Format::Jpeg => {
                proof {
                    reveal_strlit("jpeg");
                }
                "jpeg"
            },
            Format::Png => {
                proof {
                    reveal_strlit("png");
                }
                "png"
            },
        }
    }
}

/// Numbers the screenshots saved into one folder. The folder is emptied
/// before the first one.
pub struct Screenshot {
    pub folder: String,
    counter: u32,
}

impl Screenshot {
    pub closed spec fn spec_counter(&self) -> u32 {
        self.counter
    }

    pub closed spec fn spec_folder(&self) -> String {
        self.folder
    }

    pub fn new(folder: String) -> (s: Screenshot)
        ensures
            s.spec_folder() == folder,
            s.spec_counter() == 0,
    {
        Screenshot { folder, counter: 0 }
    }

    /// How many screenshots were taken.
    pub fn counter(&self) -> (r: u32)
        ensures
            r == self.spec_counter(),
    {
        self.counter
    }

    /// Whether the folder is to be emptied before the next capture: only
    /// before the first one.
    pub fn needs_cleaning(&self) -> (r: bool)
        ensures
            r == (self.spec_counter() == 0),
    {
        self.counter == 0
    }

    /// The name of the file that the next capture is saved to: its number
    /// and the format's extension.
    pub fn file_name(&self, format: Format) -> (r: String)
        ensures
            r@ == decimal(self.spec_counter() as nat) + seq!['.'] + extension_spec(format),
    {
        let mut name = decimal_string(self.counter);
        proof {
            reveal_strlit(".");
        }
        name.append(".");
        name.append(format.extension());
        name
    }

    /// Counts one more capture; the count stops at `u32::MAX`.
    pub fn record_capture(&mut self)
        ensures
            final(self).spec_folder() == old(self).spec_folder(),
            final(self).spec_counter() == if old(self).spec_counter() < u32::MAX {
                (old(self).spec_counter() + 1) as u32
            } else {
                old(self).spec_counter()
            },
    {
        if self.counter < u32::MAX {
            self.counter = self.counter + 1;
        }
    }
}

} // verus!
