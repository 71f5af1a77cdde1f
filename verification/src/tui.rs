//! SGR ("select graphic rendition") escape sequences for terminal colors
//! and styles.

use vstd::prelude::*;
use vstd::string::*;
use crate::text::decimal;

verus! {

broadcast use vstd::string::group_string_axioms;

/// A color or style of terminal text.
#[derive(Debug, Clone, Copy, PartialEq, Eq, Structural)]
pub enum Sgr {
    Reset,
    // foreground
    Black,
    Red,
    Green,
    Yellow,
    Blue,
    Magenta,
    Cyan,
    White,

    BrightBlack,
    BrightRed,
    BrightGreen,
    BrightYellow,
    BrightBlue,
    BrightMagenta,
    BrightCyan,
    BrightWhite,

    // background
    BgBlack,
    BgRed,
    BgGreen,
    BgYellow,
    BgBlue,
    BgMagenta,
    BgCyan,
    BgWhite,

    BgBrightBlack,
    BgBrightRed,
    BgBrightGreen,
    BgBrightYellow,
    BgBrightBlue,
    BgBrightMagenta,
    BgBrightCyan,
    BgBrightWhite,

    // styles
    Bold,
    Dim,
    Italic,
    Underline,
    Blink,
    Reverse,
    Hidden,
    Strikethrough,
}

impl Sgr {
    /// The SGR parameter that selects the color or style.
    pub open spec fn code(self) -> nat {
        match self {
            Sgr::Reset => 0,
            Sgr::Black => 30,
            Sgr::Red => 31,
            Sgr::Green => 32,
            Sgr::Yellow => 33,
            Sgr::Blue => 34,
            Sgr::Magenta => 35,
            Sgr::Cyan => 36,
            Sgr::White => 37,
            Sgr::BrightBlack => 90,
            Sgr::BrightRed => 91,
            Sgr::BrightGreen => 92,
            Sgr::BrightYellow => 93,
            Sgr::BrightBlue => 94,
            Sgr::BrightMagenta => 95,
            Sgr::BrightCyan => 96,
            Sgr::BrightWhite => 97,
            Sgr::BgBlack => 40,
            Sgr::BgRed => 41,
            Sgr::BgGreen => 42,
            Sgr::BgYellow => 43,
            Sgr::BgBlue => 44,
            Sgr::BgMagenta => 45,
            Sgr::BgCyan => 46,
            Sgr::BgWhite => 47,
            Sgr::BgBrightBlack => 100,
            Sgr::BgBrightRed => 101,
            Sgr::BgBrightGreen => 102,
            Sgr::BgBrightYellow => 103,
            Sgr::BgBrightBlue => 104,
            Sgr::BgBrightMagenta => 105,
            Sgr::BgBrightCyan => 106,
            Sgr::BgBrightWhite => 107,
            Sgr::Bold => 1,
            Sgr::Dim => 2,
            Sgr::Italic => 3,
            Sgr::Underline => 4,
            Sgr::Blink => 5,
            Sgr::Reverse => 7,
            Sgr::Hidden => 8,
            Sgr::Strikethrough => 9,
        }
    }

    /// The escape sequence: `ESC [`, the parameter in decimal, `m`.
    pub fn esc(self) -> (res: &'static str)
        ensures
            res@ == seq!['\x1b', '['] + decimal(self.code()) + seq!['m'],
    {
        proof {
            reveal_with_fuel(decimal, 3);
        }
        match self {
            Sgr::Reset => {
                proof {
                    reveal_strlit("\x1b[0m");
                }
                "\x1b[0m"
            },
            Sgr::Black => {
                proof {
                    reveal_strlit("\x1b[30m");
                }
                "\x1b[30m"
            },
            Sgr::Red => {
                proof {
                    reveal_strlit("\x1b[31m");
                }
                "\x1b[31m"
            },
            Sgr::Green => {
                proof {
                    reveal_strlit("\x1b[32m");
                }
                "\x1b[32m"
            },
            Sgr::Yellow => {
                proof {
                    reveal_strlit("\x1b[33m");
                }
                "\x1b[33m"
            },
            Sgr::Blue => {
                proof {
                    reveal_strlit("\x1b[34m");
                }
                "\x1b[34m"
            },
            Sgr::Magenta => {
                proof {
                    reveal_strlit("\x1b[35m");
                }
                "\x1b[35m"
            },
            Sgr::Cyan => {
                proof {
                    reveal_strlit("\x1b[36m");
                }
                "\x1b[36m"
            },
            Sgr::White => {
                proof {
                    reveal_strlit("\x1b[37m");
                }
                "\x1b[37m"
            },
            Sgr::BrightBlack => {
                proof {
                    reveal_strlit("\x1b[90m");
                }
                "\x1b[90m"
            },
            Sgr::BrightRed => {
                proof {
                    reveal_strlit("\x1b[91m");
                }
                "\x1b[91m"
            },
            Sgr::BrightGreen => {
                proof {
                    reveal_strlit("\x1b[92m");
                }
                "\x1b[92m"
            },
            Sgr::BrightYellow => {
                proof {
                    reveal_strlit("\x1b[93m");
                }
                "\x1b[93m"
            },
            Sgr::BrightBlue => {
                proof {
                    reveal_strlit("\x1b[94m");
                }
                "\x1b[94m"
            },
            Sgr::BrightMagenta => {
                proof {
                    reveal_strlit("\x1b[95m");
                }
                "\x1b[95m"
            },
            Sgr::BrightCyan => {
                proof {
                    reveal_strlit("\x1b[96m");
                }
                "\x1b[96m"
            },
            Sgr::BrightWhite => {
                proof {
                    reveal_strlit("\x1b[97m");
                }
                "\x1b[97m"
            },
            Sgr::BgBlack => {
                proof {
                    reveal_strlit("\x1b[40m");
                }
                "\x1b[40m"
            },
            Sgr::BgRed => {
                proof {
                    reveal_strlit("\x1b[41m");
                }
                "\x1b[41m"
            },
            Sgr::BgGreen => {
                proof {
                    reveal_strlit("\x1b[42m");
                }
                "\x1b[42m"
            },
            Sgr::BgYellow => {
                proof {
                    reveal_strlit("\x1b[43m");
                }
                "\x1b[43m"
            },
            Sgr::BgBlue => {
                proof {
                    reveal_strlit("\x1b[44m");
                }
                "\x1b[44m"
            },
            Sgr::BgMagenta => {
                proof {
                    reveal_strlit("\x1b[45m");
                }
                "\x1b[45m"
            },
            Sgr::BgCyan => {
                proof {
                    reveal_strlit("\x1b[46m");
                }
                "\x1b[46m"
            },
            Sgr::BgWhite => {
                proof {
                    reveal_strlit("\x1b[47m");
                }
                "\x1b[47m"
            },
            Sgr::BgBrightBlack => {
                proof {
                    reveal_strlit("\x1b[100m");
                }
                "\x1b[100m"
            },
            Sgr::BgBrightRed => {
                proof {
                    reveal_strlit("\x1b[101m");
                }
                "\x1b[101m"
            },
            Sgr::BgBrightGreen => {
                proof {
                    reveal_strlit("\x1b[102m");
                }
                "\x1b[102m"
            },
            Sgr::BgBrightYellow => {
                proof {
                    reveal_strlit("\x1b[103m");
                }
                "\x1b[103m"
            },
            Sgr::BgBrightBlue => {
                proof {
                    reveal_strlit("\x1b[104m");
                }
                "\x1b[104m"
            },
            Sgr::BgBrightMagenta => {
                proof {
                    reveal_strlit("\x1b[105m");
                }
                "\x1b[105m"
            },
            Sgr::BgBrightCyan => {
                proof {
                    reveal_strlit("\x1b[106m");
                }
                "\x1b[106m"
            },
            Sgr::BgBrightWhite => {
                proof {
                    reveal_strlit("\x1b[107m");
                }
                "\x1b[107m"
            },
            Sgr::Bold => {
                proof {
                    reveal_strlit("\x1b[1m");
                }
                "\x1b[1m"
            },
            Sgr::Dim => {
                proof {
                    reveal_strlit("\x1b[2m");
                }
                "\x1b[2m"
            },
            Sgr::Italic => {
                proof {
                    reveal_strlit("\x1b[3m");
                }
                "\x1b[3m"
            },
            Sgr::Underline => {
                proof {
                    reveal_strlit("\x1b[4m");
                }
                "\x1b[4m"
            },
            Sgr::Blink => {
                proof {
                    reveal_strlit("\x1b[5m");
                }
                "\x1b[5m"
            },
            Sgr::Reverse => {
                proof {
                    reveal_strlit("\x1b[7m");
                }
                "\x1b[7m"
            },
            Sgr::Hidden => {
                proof {
                    reveal_strlit("\x1b[8m");
                }
                "\x1b[8m"
            },
            Sgr::Strikethrough => {
                proof {
                    reveal_strlit("\x1b[9m");
                }
                "\x1b[9m"
            },
        }
    }
}

/// The eight colors in the order the standard numbers them, each as its
/// foreground, bright foreground, background and bright background.
pub open spec fn ansi_order() -> Seq<(Sgr, Sgr, Sgr, Sgr)> {
    seq![
        (Sgr::Black, Sgr::BrightBlack, Sgr::BgBlack, Sgr::BgBrightBlack),
        (Sgr::Red, Sgr::BrightRed, Sgr::BgRed, Sgr::BgBrightRed),
        (Sgr::Green, Sgr::BrightGreen, Sgr::BgGreen, Sgr::BgBrightGreen),
        (Sgr::Yellow, Sgr::BrightYellow, Sgr::BgYellow, Sgr::BgBrightYellow),
        (Sgr::Blue, Sgr::BrightBlue, Sgr::BgBlue, Sgr::BgBrightBlue),
        (Sgr::Magenta, Sgr::BrightMagenta, Sgr::BgMagenta, Sgr::BgBrightMagenta),
        (Sgr::Cyan, Sgr::BrightCyan, Sgr::BgCyan, Sgr::BgBrightCyan),
        (Sgr::White, Sgr::BrightWhite, Sgr::BgWhite, Sgr::BgBrightWhite),
    ]
}

/// The color or style a parameter selects.
spec fn sgr_of_code(n: nat) -> Option<Sgr> {
        if n == 0 {
            Some(Sgr::Reset)
        } else if n == 30 {
            Some(Sgr::Black)
        } else if n == 31 {
            Some(Sgr::Red)
        } else if n == 32 {
            Some(Sgr::Green)
        } else if n == 33 {
            Some(Sgr::Yellow)
        } else if n == 34 {
            Some(Sgr::Blue)
        } else if n == 35 {
            Some(Sgr::Magenta)
        } else if n == 36 {
            Some(Sgr::Cyan)
        } else if n == 37 {
            Some(Sgr::White)
        } else if n == 90 {
            Some(Sgr::BrightBlack)
        } else if n == 91 {
            Some(Sgr::BrightRed)
        } else if n == 92 {
            Some(Sgr::BrightGreen)
        } else if n == 93 {
            Some(Sgr::BrightYellow)
        } else if n == 94 {
            Some(Sgr::BrightBlue)
        } else if n == 95 {
            Some(Sgr::BrightMagenta)
        } else if n == 96 {
            Some(Sgr::BrightCyan)
        } else if n == 97 {
            Some(Sgr::BrightWhite)
        } else if n == 40 {
            Some(Sgr::BgBlack)
        } else if n == 41 {
            Some(Sgr::BgRed)
        } else if n == 42 {
            Some(Sgr::BgGreen)
        } else if n == 43 {
            Some(Sgr::BgYellow)
        } else if n == 44 {
            Some(Sgr::BgBlue)
        } else if n == 45 {
            Some(Sgr::BgMagenta)
        } else if n == 46 {
            Some(Sgr::BgCyan)
        } else if n == 47 {
            Some(Sgr::BgWhite)
        } else if n == 100 {
            Some(Sgr::BgBrightBlack)
        } else if n == 101 {
            Some(Sgr::BgBrightRed)
        } else if n == 102 {
            Some(Sgr::BgBrightGreen)
        } else if n == 103 {
            Some(Sgr::BgBrightYellow)
        } else if n == 104 {
            Some(Sgr::BgBrightBlue)
        } else if n == 105 {
            Some(Sgr::BgBrightMagenta)
        } else if n == 106 {
            Some(Sgr::BgBrightCyan)
        } else if n == 107 {
            Some(Sgr::BgBrightWhite)
        } else if n == 1 {
            Some(Sgr::Bold)
        } else if n == 2 {
            Some(Sgr::Dim)
        } else if n == 3 {
            Some(Sgr::Italic)
        } else if n == 4 {
            Some(Sgr::Underline)
        } else if n == 5 {
            Some(Sgr::Blink)
        } else if n == 7 {
            Some(Sgr::Reverse)
        } else if n == 8 {
            Some(Sgr::Hidden)
        } else if n == 9 {
            Some(Sgr::Strikethrough)
        } else {
            None
        }
}

proof fn lemma_sgr_of_code(s: Sgr)
    ensures
        sgr_of_code(s.code()) == Some(s),
{
}

/// The standard SGR parameters: the colors black, red, green, yellow,
/// blue, magenta, cyan and white are `30`..`37` in that order as
/// foreground, `90`..`97` bright, `40`..`47` as background and
/// `100`..`107` bright background; reset is `0`; bold, dim, italic,
/// underline and blink are `1`..`5`, reverse `7`, hidden `8`, strikethrough
/// `9`; no two colors or styles share a parameter.
pub proof fn law_sgr_standard_parameters()
    ensures
        ansi_order().len() == 8,
        forall|i: int|
            0 <= i < 8 ==> {
                &&& (#[trigger] ansi_order()[i]).0.code() == 30 + i
                &&& ansi_order()[i].1.code() == 90 + i
                &&& ansi_order()[i].2.code() == 40 + i
                &&& ansi_order()[i].3.code() == 100 + i
            },
        Sgr::Reset.code() == 0,
        Sgr::Bold.code() == 1,
        Sgr::Dim.code() == 2,
        Sgr::Italic.code() == 3,
        Sgr::Underline.code() == 4,
        Sgr::Blink.code() == 5,
        Sgr::Reverse.code() == 7,
        Sgr::Hidden.code() == 8,
        Sgr::Strikethrough.code() == 9,
        forall|a: Sgr, b: Sgr| #[trigger] a.code() == #[trigger] b.code() ==> a == b,
{
    assert forall|i: int| 0 <= i < 8 implies {
        &&& (#[trigger] ansi_order()[i]).0.code() == 30 + i
        &&& ansi_order()[i].1.code() == 90 + i
        &&& ansi_order()[i].2.code() == 40 + i
        &&& ansi_order()[i].3.code() == 100 + i
    } by {
        if i == 0 {
            assert(ansi_order()[0] == (Sgr::Black, Sgr::BrightBlack, Sgr::BgBlack, Sgr::BgBrightBlack));
        } else if i == 1 {
            assert(ansi_order()[1] == (Sgr::Red, Sgr::BrightRed, Sgr::BgRed, Sgr::BgBrightRed));
        } else if i == 2 {
            assert(ansi_order()[2] == (Sgr::Green, Sgr::BrightGreen, Sgr::BgGreen, Sgr::BgBrightGreen));
        } else if i == 3 {
            assert(ansi_order()[3] == (Sgr::Yellow, Sgr::BrightYellow, Sgr::BgYellow, Sgr::BgBrightYellow));
        } else if i == 4 {
            assert(ansi_order()[4] == (Sgr::Blue, Sgr::BrightBlue, Sgr::BgBlue, Sgr::BgBrightBlue));
        } else if i == 5 {
            assert(ansi_order()[5] == (Sgr::Magenta, Sgr::BrightMagenta, Sgr::BgMagenta, Sgr::BgBrightMagenta));
        } else if i == 6 {
            assert(ansi_order()[6] == (Sgr::Cyan, Sgr::BrightCyan, Sgr::BgCyan, Sgr::BgBrightCyan));
        } else if i == 7 {
            assert(ansi_order()[7] == (Sgr::White, Sgr::BrightWhite, Sgr::BgWhite, Sgr::BgBrightWhite));
        }
    }
    assert forall|a: Sgr, b: Sgr| #[trigger] a.code() == #[trigger] b.code() implies a == b by {
        lemma_sgr_of_code(a);
        lemma_sgr_of_code(b);
    }
}

} // verus!
