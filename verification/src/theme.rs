//! Colour themes: which colour each element of the interface is drawn with.
use vstd::prelude::*;
use vstd::string::*;

use ratatui::style::Color;
use ratatui::style::Color::{
    Black, Blue, Cyan, DarkGray, Gray, Green, Indexed, LightBlue, LightCyan, LightGreen,
    LightMagenta, LightRed, LightYellow, Magenta, Red, Reset, Rgb, White, Yellow,
};
use std::str::FromStr;

use crate::config::ThemeConfig;
use crate::text::{
    char_vec, concat2, find_char, first_char_index, join_strings, join_with, split_at_char,
    split_on, str_eq, views,
};

verus! {

/// A terminal colour: one of the sixteen named colours, the terminal's
/// default (`Reset`), a 24-bit colour or an entry of the 256-colour palette.
#[derive(Debug, Clone, Copy, PartialEq, Eq, Structural)]
pub enum ColorValue {
    Reset,
    Black,
    Red,
    Green,
    Yellow,
    Blue,
    Magenta,
    Cyan,
    Gray,
    DarkGray,
    LightRed,
    LightGreen,
    LightYellow,
    LightBlue,
    LightMagenta,
    LightCyan,
    White,
    Rgb(u8, u8, u8),
    Indexed(u8),
}

/// The name given to what the terminal library's colour parser
/// (`Color::from_str`) makes of a colour name: `None` where it refuses it.
pub uninterp spec fn color_from_str(name: Seq<char>) -> Option<ColorValue>;

/// Parses a colour name with the terminal library's `Color::from_str`
/// (names such as `red` or `bright-blue`, `#RRGGBB`, or a palette index).
/// The contract claims that the result is the named function of the
/// characters of `name`, and that an empty name is refused (it matches no
/// colour name, no number and no `#` code).
#[verifier::external_body]
fn parse_color(name: &str) -> (r: Option<ColorValue>)
    ensures
        r == color_from_str(name@),
        name@.len() == 0 ==> r is None,
{
    Some(match Color::from_str(name).ok()? {
        Reset => ColorValue::Reset, Black => ColorValue::Black, Red => ColorValue::Red,
        Green => ColorValue::Green, Yellow => ColorValue::Yellow, Blue => ColorValue::Blue,
        Magenta => ColorValue::Magenta, Cyan => ColorValue::Cyan, Gray => ColorValue::Gray,
        DarkGray => ColorValue::DarkGray, LightRed => ColorValue::LightRed,
        LightGreen => ColorValue::LightGreen, LightYellow => ColorValue::LightYellow,
        LightBlue => ColorValue::LightBlue, LightMagenta => ColorValue::LightMagenta,
        LightCyan => ColorValue::LightCyan, White => ColorValue::White,
        Rgb(r, g, b) => ColorValue::Rgb(r, g, b), Indexed(i) => ColorValue::Indexed(i),
    })
}

/// Which side of a cell a colour paints.
#[derive(Debug, Clone, Copy, PartialEq, Eq, Structural)]
pub enum Component {
    /// The background.
    Bg,
    /// The foreground (the text).
    Fg,
}

/// UI element that can be themed.
#[derive(Debug, Clone, Copy, PartialEq, Eq, Structural)]
pub enum Themed {
    Container,
    Time,
    Text,
    Border,
    Title,
    Greet,
    Prompt,
    Input,
    Action,
    ActionButton,
}

/// The colours of a style: what the theme sets of a cell's appearance.
#[derive(Debug, Clone, Copy, PartialEq, Eq, Structural)]
pub struct StyleSpec {
    /// Foreground colour, if set.
    pub fg: Option<ColorValue>,
    /// Background colour, if set.
    pub bg: Option<ColorValue>,
}

/// Colour theme for all UI elements.
#[derive(Debug, Clone, Copy)]
pub struct Theme {
    container: Option<(Component, ColorValue)>,
    time: Option<(Component, ColorValue)>,
    text: Option<(Component, ColorValue)>,
    border: Option<(Component, ColorValue)>,
    title: Option<(Component, ColorValue)>,
    greet: Option<(Component, ColorValue)>,
    prompt: Option<(Component, ColorValue)>,
    input: Option<(Component, ColorValue)>,
    action: Option<(Component, ColorValue)>,
    button: Option<(Component, ColorValue)>,
}

/// The colour a [`Theme`] gives each element, with the side it paints.
pub struct ThemeView {
    pub container: Option<(Component, ColorValue)>,
    pub time: Option<(Component, ColorValue)>,
    pub text: Option<(Component, ColorValue)>,
    pub border: Option<(Component, ColorValue)>,
    pub title: Option<(Component, ColorValue)>,
    pub greet: Option<(Component, ColorValue)>,
    pub prompt: Option<(Component, ColorValue)>,
    pub input: Option<(Component, ColorValue)>,
    pub action: Option<(Component, ColorValue)>,
    pub button: Option<(Component, ColorValue)>,
}

impl View for Theme {
    type V = ThemeView;

    closed spec fn view(&self) -> ThemeView {
        ThemeView {
            container: self.container,
            time: self.time,
            text: self.text,
            border: self.border,
            title: self.title,
            greet: self.greet,
            prompt: self.prompt,
            input: self.input,
            action: self.action,
            button: self.button,
        }
    }
}

/// The theme that sets no colour.
pub open spec fn no_colors() -> ThemeView {
    ThemeView {
        container: None,
        time: None,
        text: None,
        border: None,
        title: None,
        greet: None,
        prompt: None,
        input: None,
        action: None,
        button: None,
    }
}

/// Unset elements take the colour of their fallback: time and greeting take
/// the text's, the title the border's, the action buttons the actions'.
pub open spec fn with_fallbacks(v: ThemeView) -> ThemeView {
    ThemeView {
        container: v.container,
        time: if v.time is None {
            v.text
        } else {
            v.time
        },
        text: v.text,
        border: v.border,
        title: if v.title is None {
            v.border
        } else {
            v.title
        },
        greet: if v.greet is None {
            v.text
        } else {
            v.greet
        },
        prompt: v.prompt,
        input: v.input,
        action: v.action,
        button: if v.button is None {
            v.action
        } else {
            v.button
        },
    }
}

/// The colours parsed for each element of a theme (`None`: not given, or
/// not a colour).
#[derive(Debug, Clone, Copy)]
pub struct ThemeColors {
    pub container: Option<ColorValue>,
    pub time: Option<ColorValue>,
    pub text: Option<ColorValue>,
    pub border: Option<ColorValue>,
    pub title: Option<ColorValue>,
    pub greet: Option<ColorValue>,
    pub prompt: Option<ColorValue>,
    pub input: Option<ColorValue>,
    pub action: Option<ColorValue>,
    pub button: Option<ColorValue>,
}

/// A colour painted on the side `comp`.
pub open spec fn on(comp: Component, c: Option<ColorValue>) -> Option<(Component, ColorValue)> {
    match c {
        Some(x) => Some((comp, x)),
        None => None,
    }
}

/// The theme of parsed colours: the container colour paints the
/// background, every other colour the foreground; then the fallbacks.
pub open spec fn theme_of_colors(c: ThemeColors) -> ThemeView {
    with_fallbacks(
        ThemeView {
            container: on(Component::Bg, c.container),
            time: on(Component::Fg, c.time),
            text: on(Component::Fg, c.text),
            border: on(Component::Fg, c.border),
            title: on(Component::Fg, c.title),
            greet: on(Component::Fg, c.greet),
            prompt: on(Component::Fg, c.prompt),
            input: on(Component::Fg, c.input),
            action: on(Component::Fg, c.action),
            button: on(Component::Fg, c.button),
        },
    )
}

/// What the colour parser makes of an optional colour name.
pub open spec fn parsed(name: Option<String>) -> Option<ColorValue> {
    match name {
        Some(s) => color_from_str(s@),
        None => None,
    }
}

/// The colours of a `[theme]` table.
pub open spec fn config_colors(t: ThemeConfig) -> ThemeColors {
    ThemeColors {
        container: parsed(t.container),
        time: parsed(t.time),
        text: parsed(t.text),
        border: parsed(t.border),
        title: parsed(t.title),
        greet: parsed(t.greet),
        prompt: parsed(t.prompt),
        input: parsed(t.input),
        action: parsed(t.action),
        button: parsed(t.button),
    }
}

/// `v` with the element that `key` names set to `c` (the container on the
/// background, the others on the foreground); an unknown key changes
/// nothing.
pub open spec fn set_named(v: ThemeView, key: Seq<char>, c: ColorValue) -> ThemeView {
    let fg = Some((Component::Fg, c));
    if key == "container"@ {
        ThemeView { container: Some((Component::Bg, c)), ..v }
    } else if key == "time"@ {
        ThemeView { time: fg, ..v }
    } else if key == "text"@ {
        ThemeView { text: fg, ..v }
    } else if key == "border"@ {
        ThemeView { border: fg, ..v }
    } else if key == "title"@ {
        ThemeView { title: fg, ..v }
    } else if key == "greet"@ {
        ThemeView { greet: fg, ..v }
    } else if key == "prompt"@ {
        ThemeView { prompt: fg, ..v }
    } else if key == "input"@ {
        ThemeView { input: fg, ..v }
    } else if key == "action"@ {
        ThemeView { action: fg, ..v }
    } else if key == "button"@ {
        ThemeView { button: fg, ..v }
    } else {
        v
    }
}

/// The directives applied in order, each a key and the colour parsed from
/// its value; a directive whose value is not a colour changes nothing.
pub open spec fn apply_directives(v: ThemeView, ds: Seq<(Seq<char>, Option<ColorValue>)>) -> ThemeView
    decreases ds.len(),
{
    if ds.len() == 0 {
        v
    } else {
        let prev = apply_directives(v, ds.drop_last());
        match ds.last().1 {
            Some(c) => set_named(prev, ds.last().0, c),
            None => prev,
        }
    }
}

/// The key/value directives of a theme specification: each `;`-separated
/// piece that holds an `=`, split at its first `=`, with the colour parsed
/// from the value. Pieces without `=` are skipped.
pub open spec fn spec_directives(pieces: Seq<Seq<char>>) -> Seq<(Seq<char>, Option<ColorValue>)>
    decreases pieces.len(),
{
    if pieces.len() == 0 {
        Seq::empty()
    } else {
        let p = pieces.last();
        let k = find_char(p, '=', 0);
        spec_directives(pieces.drop_last()) + if k < p.len() {
            seq![(p.take(k), color_from_str(p.skip(k + 1)))]
        } else {
            Seq::empty()
        }
    }
}

/// The theme a specification string such as `"container=black;text=white"`
/// describes.
pub open spec fn theme_of_spec(spec: Seq<char>) -> ThemeView {
    with_fallbacks(apply_directives(no_colors(), spec_directives(split_on(spec, ';'))))
}

/// The side and colour a theme gives an element.
pub open spec fn slot_of(v: ThemeView, t: Themed) -> Option<(Component, ColorValue)> {
    match t {
        Themed::Container => v.container,
        Themed::Time => v.time,
        Themed::Text => v.text,
        Themed::Border => v.border,
        Themed::Title => v.title,
        Themed::Greet => v.greet,
        Themed::Prompt => v.prompt,
        Themed::Input => v.input,
        Themed::Action => v.action,
        Themed::ActionButton => v.button,
    }
}

/// `style` with the colour of `t` applied on its side.
pub open spec fn apply_target(v: ThemeView, style: StyleSpec, t: Themed) -> StyleSpec {
    match slot_of(v, t) {
        Some((Component::Fg, c)) => StyleSpec { fg: Some(c), bg: style.bg },
        Some((Component::Bg, c)) => StyleSpec { fg: style.fg, bg: Some(c) },
        None => style,
    }
}

/// The style of a list of elements: each element's colour applied in
/// order on a style with no colour, later elements winning.
pub open spec fn style_of(v: ThemeView, targets: Seq<Themed>) -> StyleSpec
    decreases targets.len(),
{
    if targets.len() == 0 {
        StyleSpec { fg: None, bg: None }
    } else {
        apply_target(v, style_of(v, targets.drop_last()), targets.last())
    }
}

fn parse_optional(name: &Option<String>) -> (r: Option<ColorValue>)
    ensures
        r == parsed(*name),
{
    match name {
        Some(s) => parse_color(s.as_str()),
        None => {
            proof {
                reveal_strlit("");
            }
            parse_color("")
        },
    }
}

impl Default for Theme {
    fn default() -> (r: Self)
        ensures
            r@ == no_colors(),
    {
        Theme {
            container: None,
            time: None,
            text: None,
            border: None,
            title: None,
            greet: None,
            prompt: None,
            input: None,
            action: None,
            button: None,
        }
    }
}

fn fallback(
    own: Option<(Component, ColorValue)>,
    other: Option<(Component, ColorValue)>,
) -> (r: Option<(Component, ColorValue)>)
    ensures
        r == if own is None {
            other
        } else {
            own
        },
{
    if own.is_none() {
        other
    } else {
        own
    }
}

fn painted(comp: Component, c: Option<ColorValue>) -> (r: Option<(Component, ColorValue)>)
    ensures
        r == on(comp, c),
{
    match c {
        Some(x) => Some((comp, x)),
        None => None,
    }
}

impl Theme {
    /// This theme with the fallbacks applied to its unset elements.
    fn fill_fallbacks(self) -> (r: Theme)
        ensures
            r@ == with_fallbacks(self@),
    {
        Theme {
            container: self.container,
            time: fallback(self.time, self.text),
            text: self.text,
            border: self.border,
            title: fallback(self.title, self.border),
            greet: fallback(self.greet, self.text),
            prompt: self.prompt,
            input: self.input,
            action: self.action,
            button: fallback(self.button, self.action),
        }
    }

    /// The theme of already parsed colours.
    pub fn from_colors(c: ThemeColors) -> (r: Theme)
        ensures
            r@ == theme_of_colors(c),
    {
        let t = Theme {
            container: painted(Component::Bg, c.container),
            time: painted(Component::Fg, c.time),
            text: painted(Component::Fg, c.text),
            border: painted(Component::Fg, c.border),
            title: painted(Component::Fg, c.title),
            greet: painted(Component::Fg, c.greet),
            prompt: painted(Component::Fg, c.prompt),
            input: painted(Component::Fg, c.input),
            action: painted(Component::Fg, c.action),
            button: painted(Component::Fg, c.button),
        };
        t.fill_fallbacks()
    }

    /// The theme of a `[theme]` table, using fallbacks for unspecified
    /// elements.
    pub fn from_config(theme_config: &ThemeConfig) -> (r: Theme)
        ensures
            r@ == theme_of_colors(config_colors(*theme_config)),
    {
        let colors = ThemeColors {
            container: parse_optional(&theme_config.container),
            time: parse_optional(&theme_config.time),
            text: parse_optional(&theme_config.text),
            border: parse_optional(&theme_config.border),
            title: parse_optional(&theme_config.title),
            greet: parse_optional(&theme_config.greet),
            prompt: parse_optional(&theme_config.prompt),
            input: parse_optional(&theme_config.input),
            action: parse_optional(&theme_config.action),
            button: parse_optional(&theme_config.button),
        };
        Theme::from_colors(colors)
    }

    fn set_named_color(&mut self, key: &str, c: ColorValue)
        ensures
            final(self)@ == set_named(old(self)@, key@, c),
    {
        let fg = Some((Component::Fg, c));
        if str_eq(key, "container") {
            self.container = Some((Component::Bg, c));
        } else if str_eq(key, "time") {
            self.time = fg;
        } else if str_eq(key, "text") {
            self.text = fg;
        } else if str_eq(key, "border") {
            self.border = fg;
        } else if str_eq(key, "title") {
            self.title = fg;
        } else if str_eq(key, "greet") {
            self.greet = fg;
        } else if str_eq(key, "prompt") {
            self.prompt = fg;
        } else if str_eq(key, "input") {
            self.input = fg;
        } else if str_eq(key, "action") {
            self.action = fg;
        } else if str_eq(key, "button") {
            self.button = fg;
        }
    }

    /// The theme of key/colour directives applied in order, with the
    /// fallbacks; a directive with no colour changes nothing.
    pub fn from_directives(directives: &Vec<(String, Option<ColorValue>)>) -> (r: Theme)
        ensures
            r@ == with_fallbacks(apply_directives(no_colors(), directive_views(directives@))),
    {
        let mut t = Theme::default();
        let mut i: usize = 0;
        while i < directives.len()
            invariant
                i <= directives@.len(),
                t@ == apply_directives(no_colors(), directive_views(directives@).take(i as int)),
            decreases directives@.len() - i,
        {
            let ghost before = directive_views(directives@).take(i as int);
            let (key, color) = &directives[i];
            if let Some(c) = color {
                t.set_named_color(key.as_str(), *c);
            }
            i = i + 1;
            assert(directive_views(directives@).take(i as int).drop_last() =~= before);
        }
        assert(directive_views(directives@).take(i as int) =~= directive_views(directives@));
        t.fill_fallbacks()
    }

    /// Parses a theme from a specification string of `;`-separated
    /// `key=value` pairs, such as `"container=black;text=white;border=blue"`,
    /// using fallbacks for unspecified elements.
    pub fn parse(spec: &str) -> (r: Theme)
        ensures
            r@ == theme_of_spec(spec@),
    {
        let pieces = split_at_char(spec, ';');
        let ghost pv = split_on(spec@, ';');
        let mut directives: Vec<(String, Option<ColorValue>)> = Vec::new();
        let mut i: usize = 0;
        while i < pieces.len()
            invariant
                i <= pieces@.len(),
                pv.len() == pieces@.len(),
                forall|k: int| 0 <= k < pieces@.len() ==> (#[trigger] pieces@[k])@ == pv[k],
                directive_views(directives@) == spec_directives(pv.take(i as int)),
            decreases pieces@.len() - i,
        {
            let ghost before = directives@;
            let p = pieces[i].as_str();
            let chars = char_vec(p);
            let k = first_char_index(&chars, '=');
            if k < chars.len() {
                let key = p.substring_char(0, k).to_owned();
                let value = p.substring_char(k + 1, chars.len());
                let color = parse_color(value);
                directives.push((key, color));
                assert(directive_views(directives@) =~= directive_views(before) + seq![
                    (p@.take(k as int), color_from_str(p@.skip(k + 1))),
                ]);
            } else {
                assert(directive_views(directives@) =~= directive_views(before) + Seq::empty());
            }
            assert(pv.take(i + 1).drop_last() =~= pv.take(i as int));
            assert(pv.take(i + 1).last() == pv[i as int]);
            i = i + 1;
        }
        assert(pv.take(i as int) =~= pv);
        Theme::from_directives(&directives)
    }

    /// The style of a list of elements: each element's colour is applied in
    /// order, later elements overriding earlier ones on the same side.
    pub fn of(&self, targets: &[Themed]) -> (r: StyleSpec)
        ensures
            r == style_of(self@, targets@),
    {
        let mut style = StyleSpec { fg: None, bg: None };
        let mut i: usize = 0;
        while i < targets.len()
            invariant
                i <= targets@.len(),
                style == style_of(self@, targets@.take(i as int)),
            decreases targets@.len() - i,
        {
            let ghost before = targets@.take(i as int);
            style = self.apply(style, &targets[i]);
            i = i + 1;
            assert(targets@.take(i as int).drop_last() =~= before);
        }
        assert(targets@.take(i as int) =~= targets@);
        style
    }

    fn apply(&self, style: StyleSpec, target: &Themed) -> (r: StyleSpec)
        ensures
            r == apply_target(self@, style, *target),
    {
        let color = match target {
            Themed::Container => self.container,
            Themed::Time => self.time,
            Themed::Text => self.text,
            Themed::Border => self.border,
            Themed::Title => self.title,
            Themed::Greet => self.greet,
            Themed::Prompt => self.prompt,
            Themed::Input => self.input,
            Themed::Action => self.action,
            Themed::ActionButton => self.button,
        };
        match color {
            Some((Component::Fg, c)) => StyleSpec { fg: Some(c), bg: style.bg },
            Some((Component::Bg, c)) => StyleSpec { fg: style.fg, bg: Some(c) },
            None => style,
        }
    }

    /// The side and colour this theme gives an element.
    pub fn slot(&self, target: Themed) -> (r: Option<(Component, ColorValue)>)
        ensures
            r == slot_of(self@, target),
    {
        match target {
            Themed::Container => self.container,
            Themed::Time => self.time,
            Themed::Text => self.text,
            Themed::Border => self.border,
            Themed::Title => self.title,
            Themed::Greet => self.greet,
            Themed::Prompt => self.prompt,
            Themed::Input => self.input,
            Themed::Action => self.action,
            Themed::ActionButton => self.button,
        }
    }
}

/// The views of key/colour directives.
pub open spec fn directive_views(ds: Seq<(String, Option<ColorValue>)>) -> Seq<
    (Seq<char>, Option<ColorValue>),
> {
    ds.map_values(|d: (String, Option<ColorValue>)| (d.0@, d.1))
}

/// The `key=colour` piece for an element, when a colour is configured.
pub open spec fn spec_part(lead: Seq<char>, color: Option<String>) -> Seq<Seq<char>> {
    match color {
        Some(c) => seq![lead + c@],
        None => Seq::empty(),
    }
}

/// The pieces of the specification string built from a `[theme]` table, in
/// the order border, text, time, container, title, greet, prompt, input,
/// action, button.
pub open spec fn theme_spec_parts(t: ThemeConfig) -> Seq<Seq<char>> {
    spec_part("border="@, t.border) + spec_part("text="@, t.text) + spec_part("time="@, t.time)
        + spec_part("container="@, t.container) + spec_part("title="@, t.title) + spec_part(
        "greet="@,
        t.greet,
    ) + spec_part("prompt="@, t.prompt) + spec_part("input="@, t.input) + spec_part(
        "action="@,
        t.action,
    ) + spec_part("button="@, t.button)
}

/// The theme `theme_from_config` builds: no colour when the table sets none,
/// otherwise the theme of its pieces joined with `;`.
pub open spec fn theme_of_table(t: ThemeConfig) -> ThemeView {
    let parts = theme_spec_parts(t);
    if parts.len() == 0 {
        no_colors()
    } else {
        theme_of_spec(join_with(parts, ";"@))
    }
}

fn spec_piece(lead: &str, color: &Option<String>) -> (r: Vec<String>)
    ensures
        views(r@) == spec_part(lead@, *color),
{
    let mut r: Vec<String> = Vec::new();
    if let Some(c) = color {
        r.push(concat2(lead, c.as_str()));
    }
    assert(views(r@) =~= spec_part(lead@, *color));
    r
}

fn join_pieces(a: Vec<String>, b: Vec<String>) -> (r: Vec<String>)
    ensures
        views(r@) == views(a@) + views(b@),
{
    let ghost a0 = a@;
    let ghost b0 = b@;
    let mut a = a;
    let mut b = b;
    a.append(&mut b);
    assert(views(a@) =~= views(a0) + views(b0));
    a
}

/// The theme of a `[theme]` table, built through a specification string of
/// `key=colour` pieces; elements the table leaves out get no colour, or
/// their fallback's.
pub fn theme_from_config(theme_config: &ThemeConfig) -> (r: Theme)
    ensures
        r@ == theme_of_table(*theme_config),
{
    let mut theme = Theme::default();
    let p1 = spec_piece("border=", &theme_config.border);
    let p2 = spec_piece("text=", &theme_config.text);
    let p3 = spec_piece("time=", &theme_config.time);
    let p4 = spec_piece("container=", &theme_config.container);
    let p5 = spec_piece("title=", &theme_config.title);
    let p6 = spec_piece("greet=", &theme_config.greet);
    let p7 = spec_piece("prompt=", &theme_config.prompt);
    let p8 = spec_piece("input=", &theme_config.input);
    let p9 = spec_piece("action=", &theme_config.action);
    let p10 = spec_piece("button=", &theme_config.button);
    let spec_parts = join_pieces(
        join_pieces(
            join_pieces(
                join_pieces(
                    join_pieces(
                        join_pieces(join_pieces(join_pieces(join_pieces(p1, p2), p3), p4), p5),
                        p6,
                    ),
                    p7,
                ),
                p8,
            ),
            p9,
        ),
        p10,
    );
    if !spec_parts.is_empty() {
        let spec = join_strings(&spec_parts, ";");
        theme = Theme::parse(spec.as_str());
    }
    theme
}

/// The theme given on the command line, if any, in place of the configured
/// one: a command-line theme replaces the configured theme whole.
pub fn apply_cli_theme(base_theme: Theme, cli_theme_spec: Option<&str>) -> (r: Theme)
    ensures
        r@ == match cli_theme_spec {
            Some(spec) => theme_of_spec(spec@),
            None => base_theme@,
        },
{
    let mut base_theme = base_theme;
    if let Some(spec) = cli_theme_spec {
        base_theme = Theme::parse(spec);
    }
    base_theme
}

/// An element without a colour of its own is drawn in its fallback's: the
/// time and the greeting in the text's colour, the title in the border's,
/// the action buttons in the actions' colour.
pub proof fn lemma_config_fallbacks(t: ThemeConfig)
    ensures
        parsed(t.time) is None ==> theme_of_colors(config_colors(t)).time == theme_of_colors(
            config_colors(t),
        ).text,
        parsed(t.greet) is None ==> theme_of_colors(config_colors(t)).greet == theme_of_colors(
            config_colors(t),
        ).text,
        parsed(t.title) is None ==> theme_of_colors(config_colors(t)).title == theme_of_colors(
            config_colors(t),
        ).border,
        parsed(t.button) is None ==> theme_of_colors(config_colors(t)).button == theme_of_colors(
            config_colors(t),
        ).action,
        parsed(t.time) matches Some(c) ==> theme_of_colors(config_colors(t)).time == Some(
            (Component::Fg, c),
        ),
        parsed(t.container) matches Some(c) ==> theme_of_colors(config_colors(t)).container
            == Some((Component::Bg, c)),
{
}

/// Later targets override earlier ones on the property they set: the style
/// of `targets` followed by `t` takes `t`'s colour on `t`'s side, keeps the
/// other side as `targets` left it, and is that style unchanged when `t` has
/// no colour.
pub proof fn lemma_later_target_wins(v: ThemeView, targets: Seq<Themed>, t: Themed)
    ensures
        slot_of(v, t) matches Some((Component::Fg, c)) ==> style_of(v, targets.push(t)).fg == Some(c)
            && style_of(v, targets.push(t)).bg == style_of(v, targets).bg,
        slot_of(v, t) matches Some((Component::Bg, c)) ==> style_of(v, targets.push(t)).bg == Some(c)
            && style_of(v, targets.push(t)).fg == style_of(v, targets).fg,
        slot_of(v, t) is None ==> style_of(v, targets.push(t)) == style_of(v, targets),
{
    assert(targets.push(t).drop_last() =~= targets);
}

/// A specification with no text sets no colour.
pub proof fn lemma_empty_spec_has_no_colors()
    ensures
        theme_of_spec(Seq::empty()) == no_colors(),
{
    let pieces = split_on(Seq::<char>::empty(), ';');
    assert(pieces =~= seq![Seq::<char>::empty()]);
    assert(pieces.drop_last() =~= Seq::<Seq<char>>::empty());
    assert(find_char(pieces.last(), '=', 0) == 0);
    assert(spec_directives(pieces.drop_last()) =~= Seq::empty());
    assert(spec_directives(pieces) =~= Seq::empty());
    assert(apply_directives(no_colors(), Seq::empty()) == no_colors());
}

/// The theme of a `[theme]` table is that of its `key=colour` pieces joined
/// with `;`, whether or not the table sets any colour.
pub proof fn lemma_table_is_joined_spec(t: ThemeConfig)
    ensures
        theme_of_table(t) == theme_of_spec(join_with(theme_spec_parts(t), ";"@)),
{
    if theme_spec_parts(t).len() == 0 {
        lemma_empty_spec_has_no_colors();
    }
}

/// Each directive sets exactly the element its key names, to the colour
/// given (the container on the background, every other element on the
/// foreground), and leaves every other element as it was; a key that names
/// no element changes nothing.
pub proof fn lemma_directive_sets_its_element(v: ThemeView, key: Seq<char>, c: ColorValue)
    ensures
        set_named(v, "container"@, c) == (ThemeView { container: Some((Component::Bg, c)), ..v }),
        set_named(v, "time"@, c) == (ThemeView { time: Some((Component::Fg, c)), ..v }),
        set_named(v, "text"@, c) == (ThemeView { text: Some((Component::Fg, c)), ..v }),
        set_named(v, "border"@, c) == (ThemeView { border: Some((Component::Fg, c)), ..v }),
        set_named(v, "title"@, c) == (ThemeView { title: Some((Component::Fg, c)), ..v }),
        set_named(v, "greet"@, c) == (ThemeView { greet: Some((Component::Fg, c)), ..v }),
        set_named(v, "prompt"@, c) == (ThemeView { prompt: Some((Component::Fg, c)), ..v }),
        set_named(v, "input"@, c) == (ThemeView { input: Some((Component::Fg, c)), ..v }),
        set_named(v, "action"@, c) == (ThemeView { action: Some((Component::Fg, c)), ..v }),
        set_named(v, "button"@, c) == (ThemeView { button: Some((Component::Fg, c)), ..v }),
        key != "container"@ && key != "time"@ && key != "text"@ && key != "border"@ && key != "title"@ && key != "greet"@ && key != "prompt"@ && key != "input"@ && key != "action"@ && key != "button"@ ==> set_named(v, key, c) == v,
{
    reveal_strlit("container");
    reveal_strlit("time");
    reveal_strlit("text");
    reveal_strlit("border");
    reveal_strlit("title");
    reveal_strlit("greet");
    reveal_strlit("prompt");
    reveal_strlit("input");
    reveal_strlit("action");
    reveal_strlit("button");
    assert("time"@.len() != "container"@.len());
    assert("text"@.len() != "container"@.len());
    assert("text"@[1] != "time"@[1]);
    assert("border"@.len() != "container"@.len());
    assert("border"@.len() != "time"@.len());
    assert("border"@.len() != "text"@.len());
    assert("title"@.len() != "container"@.len());
    assert("title"@.len() != "time"@.len());
    assert("title"@.len() != "text"@.len());
    assert("title"@.len() != "border"@.len());
    assert("greet"@.len() != "container"@.len());
    assert("greet"@.len() != "time"@.len());
    assert("greet"@.len() != "text"@.len());
    assert("greet"@.len() != "border"@.len());
    assert("greet"@[0] != "title"@[0]);
    assert("prompt"@.len() != "container"@.len());
    assert("prompt"@.len() != "time"@.len());
    assert("prompt"@.len() != "text"@.len());
    assert("prompt"@[0] != "border"@[0]);
    assert("prompt"@.len() != "title"@.len());
    assert("prompt"@.len() != "greet"@.len());
    assert("input"@.len() != "container"@.len());
    assert("input"@.len() != "time"@.len());
    assert("input"@.len() != "text"@.len());
    assert("input"@.len() != "border"@.len());
    assert("input"@[0] != "title"@[0]);
    assert("input"@[0] != "greet"@[0]);
    assert("input"@.len() != "prompt"@.len());
    assert("action"@.len() != "container"@.len());
    assert("action"@.len() != "time"@.len());
    assert("action"@.len() != "text"@.len());
    assert("action"@[0] != "border"@[0]);
    assert("action"@.len() != "title"@.len());
    assert("action"@.len() != "greet"@.len());
    assert("action"@[0] != "prompt"@[0]);
    assert("action"@.len() != "input"@.len());
    assert("button"@.len() != "container"@.len());
    assert("button"@.len() != "time"@.len());
    assert("button"@.len() != "text"@.len());
    assert("button"@[1] != "border"@[1]);
    assert("button"@.len() != "title"@.len());
    assert("button"@.len() != "greet"@.len());
    assert("button"@[0] != "prompt"@[0]);
    assert("button"@.len() != "input"@.len());
    assert("button"@[0] != "action"@[0]);
}

} // verus!
