//! The pure render model: what one frame shows, computed from the state.
//!
//! Rendering proper — painting styled cells into a terminal buffer — lives
//! outside the library. [`App::render`] distils the state into everything the
//! painter needs: the fixed texts, the accent colour, the gauge's fill ratio,
//! and the percentage label, whose decimal text is built and specified here.

use crate::events::PROGRESS_SCALE;
use crate::state::{AccentColor, App};
use vstd::prelude::*;

verus! {

/// The character for one decimal digit.
pub open spec fn digit_char(d: int) -> char {
    if d == 0 {
        '0'
    } else if d == 1 {
        '1'
    } else if d == 2 {
        '2'
    } else if d == 3 {
        '3'
    } else if d == 4 {
        '4'
    } else if d == 5 {
        '5'
    } else if d == 6 {
        '6'
    } else if d == 7 {
        '7'
    } else if d == 8 {
        '8'
    } else {
        '9'
    }
}

/// The decimal digits of a number, most significant first, no leading zeros.
pub open spec fn dec_rep(n: nat) -> Seq<char>
    decreases n,
{
    if n < 10 {
        seq![digit_char(n as int)]
    } else {
        dec_rep(n / 10).push(digit_char((n % 10) as int))
    }
}

/// The gauge label for a progress value: the progress as a percentage with
/// two decimal places.
pub open spec fn percent_label(p: u32) -> Seq<char> {
    "Process 1: "@ + dec_rep((p / 100) as nat) + "."@ + seq![
        digit_char((p / 10) as int % 10),
        digit_char(p as int % 10),
    ] + "%"@
}

/// A single decimal digit as text.
fn digit_str(d: u32) -> (r: &'static str)
    requires
        d < 10,
    ensures
        r@ == seq![digit_char(d as int)],
{
    proof {
        reveal_strlit("0");
        reveal_strlit("1");
        reveal_strlit("2");
        reveal_strlit("3");
        reveal_strlit("4");
        reveal_strlit("5");
        reveal_strlit("6");
        reveal_strlit("7");
        reveal_strlit("8");
        reveal_strlit("9");
        assert("0"@ =~= seq![digit_char(0)]);
        assert("1"@ =~= seq![digit_char(1)]);
        assert("2"@ =~= seq![digit_char(2)]);
        assert("3"@ =~= seq![digit_char(3)]);
        assert("4"@ =~= seq![digit_char(4)]);
        assert("5"@ =~= seq![digit_char(5)]);
        assert("6"@ =~= seq![digit_char(6)]);
        assert("7"@ =~= seq![digit_char(7)]);
        assert("8"@ =~= seq![digit_char(8)]);
        assert("9"@ =~= seq![digit_char(9)]);
    }
    if d == 0 {
        "0"
    } else if d == 1 {
        "1"
    } else if d == 2 {
        "2"
    } else if d == 3 {
        "3"
    } else if d == 4 {
        "4"
    } else if d == 5 {
        "5"
    } else if d == 6 {
        "6"
    } else if d == 7 {
        "7"
    } else if d == 8 {
        "8"
    } else {
        "9"
    }
}

/// The decimal text of a number up to one hundred.
fn dec_str_to_hundred(n: u32) -> (r: String)
    requires
        n <= 100,
    ensures
        r@ == dec_rep(n as nat),
{
    if n == 100 {
        proof {
            reveal_strlit("100");
            assert(dec_rep(1) =~= seq![digit_char(1)]);
            assert(dec_rep(10) =~= seq![digit_char(1), digit_char(0)]);
            assert(dec_rep(100) =~= seq![digit_char(1), digit_char(0), digit_char(0)]);
            assert("100"@ =~= dec_rep(100));
        }
        String::from_str("100")
    } else if n >= 10 {
        let mut s = String::from_str(digit_str(n / 10));
        s.append(digit_str(n % 10));
        proof {
            assert(dec_rep((n / 10) as nat) =~= seq![digit_char(n as int / 10)]);
            assert(dec_rep(n as nat) =~= dec_rep((n / 10) as nat).push(
                digit_char(n as int % 10),
            ));
            assert(s@ =~= dec_rep(n as nat));
        }
        s
    } else {
        String::from_str(digit_str(n))
    }
}

/// The gauge label: the progress as a percentage with two decimal places.
pub fn percent_label_text(p: u32) -> (r: String)
    requires
        p <= PROGRESS_SCALE,
    ensures
        r@ == percent_label(p),
{
    let mut s = String::from_str("Process 1: ");
    let whole = dec_str_to_hundred(p / 100);
    s.append(whole.as_str());
    s.append(".");
    s.append(digit_str((p / 10) % 10));
    s.append(digit_str(p % 10));
    s.append("%");
    proof {
        assert(s@ =~= percent_label(p));
    }
    s
}

/// Everything one frame shows, as plain values: the fixed texts, the accent
/// colour, the gauge's fill ratio in progress units, and the gauge label.
pub struct RenderModel {
    /// Heading shown over the whole screen.
    pub title: String,
    /// Title of the bordered panel around the gauge.
    pub panel_title: String,
    /// The key-binding hints shown under the panel, in display order; the
    /// hints at odd positions name keys and are the ones to highlight.
    pub instructions: Vec<String>,
    /// Which colour scheme the gauge is drawn in.
    pub accent: AccentColor,
    /// Fill ratio of the gauge, in progress units out of the scale.
    pub ratio: u32,
    /// Text shown on the gauge.
    pub label: String,
}

impl App {
    /// Distil the state into the model of the frame to draw. The model is a
    /// pure function of the state: the gauge shows the current progress, as
    /// a ratio and as a percentage label, in the current accent colour.
    pub fn render(&self) -> (m: RenderModel)
        requires
            self.wf(),
        ensures
            m.title@ == "Process Overview"@,
            m.panel_title@ == " Background Processes "@,
            m.instructions@.len() == 4,
            m.instructions@[0]@ == " Change colour "@,
            m.instructions@[1]@ == "<C>"@,
            m.instructions@[2]@ == " Quit "@,
            m.instructions@[3]@ == "<Q> "@,
            m.accent == self.accent_color,
            m.ratio == self.progress,
            m.ratio <= PROGRESS_SCALE,
            m.label@ == percent_label(self.progress),
    {
        let mut instructions: Vec<String> = Vec::new();
        instructions.push(String::from_str(" Change colour "));
        instructions.push(String::from_str("<C>"));
        instructions.push(String::from_str(" Quit "));
        instructions.push(String::from_str("<Q> "));
        RenderModel {
            title: String::from_str("Process Overview"),
            panel_title: String::from_str(" Background Processes "),
            instructions,
            accent: self.accent_color,
            ratio: self.progress,
            label: percent_label_text(self.progress),
        }
    }
}

} // verus!
