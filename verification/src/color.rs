//! 24-bit RGB colors and their uppercase `#RRGGBB` hex rendering.

use vstd::prelude::*;
use vstd::string::StrSliceExecFns;
use vstd::string::StringExecFns;

verus! {

/// One pixel's color, 8 bits per channel.
#[derive(Clone, Copy, Debug, PartialEq, Eq, Structural)]
pub struct Rgb {
    pub red: u8,
    pub green: u8,
    pub blue: u8,
}

/// The uppercase hexadecimal digit for a value in `[0, 16)`.
pub open spec fn spec_hex_digit(n: int) -> char {
    if n == 0 {
        '0'
    } else if n == 1 {
        '1'
    } else if n == 2 {
        '2'
    } else if n == 3 {
        '3'
    } else if n == 4 {
        '4'
    } else if n == 5 {
        '5'
    } else if n == 6 {
        '6'
    } else if n == 7 {
        '7'
    } else if n == 8 {
        '8'
    } else if n == 9 {
        '9'
    } else if n == 10 {
        'A'
    } else if n == 11 {
        'B'
    } else if n == 12 {
        'C'
    } else if n == 13 {
        'D'
    } else if n == 14 {
        'E'
    } else {
        'F'
    }
}

/// Whether a character is an uppercase hexadecimal digit.
pub open spec fn is_hex_char(c: char) -> bool {
    ||| c == '0'
    ||| c == '1'
    ||| c == '2'
    ||| c == '3'
    ||| c == '4'
    ||| c == '5'
    ||| c == '6'
    ||| c == '7'
    ||| c == '8'
    ||| c == '9'
    ||| c == 'A'
    ||| c == 'B'
    ||| c == 'C'
    ||| c == 'D'
    ||| c == 'E'
    ||| c == 'F'
}

/// The rendering of a color: `'#'` followed by the high and low hex digit of
/// the red, green and blue channel in that order.
pub open spec fn spec_color_hex(c: Rgb) -> Seq<char> {
    seq![
        '#',
        spec_hex_digit(c.red as int / 16),
        spec_hex_digit(c.red as int % 16),
        spec_hex_digit(c.green as int / 16),
        spec_hex_digit(c.green as int % 16),
        spec_hex_digit(c.blue as int / 16),
        spec_hex_digit(c.blue as int % 16),
    ]
}

/// A well-formed color string: exactly seven characters, a leading `'#'`,
/// then six uppercase hexadecimal digits.
pub open spec fn is_color_hex(s: Seq<char>) -> bool {
    &&& s.len() == 7
    &&& s[0] == '#'
    &&& forall|i: int| 1 <= i < 7 ==> is_hex_char(#[trigger] s[i])
}

/// Every rendered color string is well formed.
pub proof fn lemma_color_hex_wellformed(c: Rgb)
    ensures
        is_color_hex(spec_color_hex(c)),
{
    let s = spec_color_hex(c);
    assert forall|i: int| 1 <= i < 7 implies is_hex_char(#[trigger] s[i]) by {
        assert(0 <= c.red as int / 16 < 16);
        assert(0 <= c.green as int / 16 < 16);
        assert(0 <= c.blue as int / 16 < 16);
    }
}

/// The one-character string slice holding the uppercase hex digit for `n`.
fn hex_digit_str(n: u8) -> (s: &'static str)
    requires
        n < 16,
    ensures
        s@ =~= seq![spec_hex_digit(n as int)],
{
    match n {
        0 => {
            proof {
                reveal_strlit("0");
            }
            "0"
        },
        1 => {
            proof {
                reveal_strlit("1");
            }
            "1"
        },
        2 => {
            proof {
                reveal_strlit("2");
            }
            "2"
        },
        3 => {
            proof {
                reveal_strlit("3");
            }
            "3"
        },
        4 => {
            proof {
                reveal_strlit("4");
            }
            "4"
        },
        5 => {
            proof {
                reveal_strlit("5");
            }
            "5"
        },
        6 => {
            proof {
                reveal_strlit("6");
            }
            "6"
        },
        7 => {
            proof {
                reveal_strlit("7");
            }
            "7"
        },
        8 => {
            proof {
                reveal_strlit("8");
            }
            "8"
        },
        9 => {
            proof {
                reveal_strlit("9");
            }
            "9"
        },
        10 => {
            proof {
                reveal_strlit("A");
            }
            "A"
        },
        11 => {
            proof {
                reveal_strlit("B");
            }
            "B"
        },
        12 => {
            proof {
                reveal_strlit("C");
            }
            "C"
        },
        13 => {
            proof {
                reveal_strlit("D");
            }
            "D"
        },
        14 => {
            proof {
                reveal_strlit("E");
            }
            "E"
        },
        _ => {
            proof {
                reveal_strlit("F");
            }
            "F"
        },
    }
}

/// Renders a color as its uppercase `#RRGGBB` string.
pub fn color_hex(c: Rgb) -> (s: String)
    ensures
        s@ == spec_color_hex(c),
{
    let mut s = String::from_str("#");
    proof {
        reveal_strlit("#");
    }
    s.append(hex_digit_str(c.red / 16));
    s.append(hex_digit_str(c.red % 16));
    s.append(hex_digit_str(c.green / 16));
    s.append(hex_digit_str(c.green % 16));
    s.append(hex_digit_str(c.blue / 16));
    s.append(hex_digit_str(c.blue % 16));
    proof {
        assert(s@ =~= spec_color_hex(c));
    }
    s
}

} // verus!
