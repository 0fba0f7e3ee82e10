//! Menus of selectable options (sessions, power actions, users, ...).
use vstd::prelude::*;
use vstd::string::*;

use crate::processing::{rect_new, sat_add, sat_sub, Rect};
use crate::text::char_vec;

verus! {

/// Item that can be displayed in a menu.
pub trait MenuItem {
    /// The item's text in the menu.
    fn format(&self) -> String;
}

/// Generic menu widget for displaying selectable options.
#[derive(Debug, Default)]
pub struct Menu<T> where T: MenuItem {
    /// Menu title.
    pub title: String,
    /// List of menu items.
    pub options: Vec<T>,
    /// Currently selected index.
    pub selected: usize,
}

/// A line of a menu: its text and whether it is drawn highlighted (in
/// reverse video).
#[derive(Debug, Clone)]
pub struct MenuLine {
    pub text: String,
    pub highlighted: bool,
}

/// `name` padded with spaces on the right to at least `width` characters
/// (what `format!("{:1$}", name, width)` gives).
pub open spec fn padded(name: Seq<char>, width: nat) -> Seq<char> {
    if name.len() >= width {
        name
    } else {
        name + Seq::new((width - name.len()) as nat, |i: int| ' ')
    }
}

/// `text` is some name padded with spaces to at least `width` characters.
pub open spec fn is_padded(text: Seq<char>, width: nat) -> bool {
    exists|name: Seq<char>| text == #[trigger] padded(name, width)
}

/// `name` padded with spaces on the right to at least `width` characters.
pub fn pad_right(name: &str, width: usize) -> (r: String)
    ensures
        r@ == padded(name@, width as nat),
{
    let n = char_vec(name).len();
    let mut r = name.to_owned();
    if n >= width {
        return r;
    }
    let mut k: usize = n;
    while k < width
        invariant
            n == name@.len(),
            n <= k <= width,
            r@ == name@ + Seq::new((k - n) as nat, |i: int| ' '),
        decreases width - k,
    {
        proof {
            reveal_strlit(" ");
        }
        r.append(" ");
        k = k + 1;
        assert(r@ =~= name@ + Seq::new((k - n) as nat, |i: int| ' '));
    }
    r
}

impl<T> Menu<T> where T: MenuItem {
    /// The line for the option at `index`, named `name`: highlighted when it
    /// is the selected option.
    pub fn get_option(&self, name: String, index: usize) -> (r: MenuLine)
        ensures
            r.text == name,
            r.highlighted == (self.selected == index),
    {
        MenuLine { text: name, highlighted: self.selected == index }
    }

    /// Where the option at `index` is drawn in a menu box placed at `(x, y)`
    /// and `width` cells wide: one row, two cells in from the box's left
    /// edge and two rows below its top, two cells narrower than the box on
    /// each side, cut to keep its edges within `u16`. The index is taken
    /// modulo 2^16, as a row number.
    pub fn option_frame(x: u16, y: u16, width: u16, index: usize) -> (r: Rect)
        ensures
            r == rect_new(
                sat_add(x as int, 2) as u16,
                sat_add(sat_add(y as int, 2), (index % 65536) as int) as u16,
                sat_sub(width as int, 4) as u16,
                1,
            ),
    {
        let row = (index % 65536) as u16;
        Rect::new(x.saturating_add(2), y.saturating_add(2).saturating_add(row), width.saturating_sub(4), 1)
    }

    /// Where the cursor goes in a menu box placed at `(x, y)`: at the start
    /// of the selected option's row.
    pub fn cursor(&self, x: u16, y: u16) -> (r: (u16, u16))
        ensures
            r.0 == sat_add(x as int, 2),
            r.1 == sat_add(sat_add(y as int, 2), (self.selected % 65536) as int),
    {
        let frame = Self::option_frame(x, y, 0, self.selected);
        (frame.x, frame.y)
    }

    /// The lines of the menu, for rows `width` cells wide: each option's
    /// text, as its `format` gives it, padded with spaces to `width - 4`
    /// characters (at least zero), the selected one highlighted (see
    /// [`option_lines`]; what `format` gives is the item's own affair).
    pub fn lines(&self, width: u16) -> (r: Vec<MenuLine>)
        ensures
            r@.len() == self.options@.len(),
            forall|i: int|
                0 <= i < r@.len() ==> (#[trigger] r@[i]).highlighted == (self.selected == i),
            forall|i: int|
                0 <= i < r@.len() ==> is_padded((#[trigger] r@[i]).text@, sat_sub(width as int, 4) as nat),
    {
        let mut names: Vec<String> = Vec::new();
        let mut i: usize = 0;
        while i < self.options.len()
            invariant
                i <= self.options@.len(),
                names@.len() == i,
            decreases self.options@.len() - i,
        {
            names.push(self.options[i].format());
            i = i + 1;
        }
        let r = option_lines(&names, self.selected, width);
        assert forall|i: int| 0 <= i < r@.len() implies is_padded(
            (#[trigger] r@[i]).text@,
            sat_sub(width as int, 4) as nat,
        ) by {
            assert(r@[i].text@ == padded(names@[i]@, sat_sub(width as int, 4) as nat));
        }
        r
    }
}

/// The lines of a menu whose options read `names`, for rows `width` cells
/// wide: each name padded with spaces to `width - 4` characters (at least
/// zero), the one at `selected` highlighted.
pub fn option_lines(names: &Vec<String>, selected: usize, width: u16) -> (r: Vec<MenuLine>)
    ensures
        r@.len() == names@.len(),
        forall|i: int| 0 <= i < r@.len() ==> (#[trigger] r@[i]).highlighted == (selected == i),
        forall|i: int|
            0 <= i < r@.len() ==> (#[trigger] r@[i]).text@ == padded(
                names@[i]@,
                sat_sub(width as int, 4) as nat,
            ),
{
    let w = width.saturating_sub(4) as usize;
    let mut r: Vec<MenuLine> = Vec::new();
    let mut i: usize = 0;
    while i < names.len()
        invariant
            i <= names@.len(),
            w == sat_sub(width as int, 4),
            r@.len() == i,
            forall|k: int| 0 <= k < i ==> (#[trigger] r@[k]).highlighted == (selected == k),
            forall|k: int|
                0 <= k < i ==> (#[trigger] r@[k]).text@ == padded(
                    names@[k]@,
                    sat_sub(width as int, 4) as nat,
                ),
        decreases names@.len() - i,
    {
        let text = pad_right(names[i].as_str(), w);
        r.push(MenuLine { text, highlighted: selected == i });
        i = i + 1;
    }
    r
}

} // verus!
