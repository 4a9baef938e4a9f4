//! The escape-sequence interpreter: bytes from the PTY go through the `vte` state
//! machine, which reports actions (print, control, CSI, ESC, ...); each action is then
//! applied to the screen and the current pen.

use vstd::prelude::*;

use super::cell::{
    bit_set, lemma_set_flag_reads_back, with_bit, Cell, CellAttrs, ATTR_BLINK, ATTR_BOLD, ATTR_DIM, ATTR_HIDDEN, ATTR_INVERSE, ATTR_ITALIC,
    ATTR_STRIKETHROUGH, ATTR_UNDERLINE, DEFAULT_BG, DEFAULT_FG,
};
use super::colors::{ansi_color, palette};
use super::cell::blank_cell;
use super::screen::{Screen, ScreenView};

verus! {

#[verifier::external_type_specification]
#[verifier::external_body]
pub struct ExVtParser<const OSC_RAW_BUF_SIZE: usize>(vte::Parser<OSC_RAW_BUF_SIZE>);

#[verifier::external_type_specification]
#[verifier::external_body]
pub struct ExVtParams(vte::Params);

/// One action reported by the `vte` state machine, with its arguments as plain values
/// (each CSI/DCS parameter is the list of its subparameters).
#[allow(inconsistent_fields)]
pub enum VtAction {
    Print(char),
    Execute(u8),
    Hook { params: Vec<Vec<u16>>, intermediates: Vec<u8>, ignore: bool, action: char },
    Put(u8),
    Unhook,
    OscDispatch { params: Vec<Vec<u8>>, bell_terminated: bool },
    CsiDispatch { params: Vec<Vec<u16>>, intermediates: Vec<u8>, ignore: bool, action: char },
    EscDispatch { intermediates: Vec<u8>, ignore: bool, byte: u8 },
}

/// Collects the actions `vte` reports while it consumes a byte.
pub struct ActionSink {
    actions: Vec<VtAction>,
}

impl ActionSink {
    /// Appends one reported action.
    fn record(&mut self, action: VtAction)
        ensures
            final(self).actions@ == old(self).actions@.push(action),
    {
        self.actions.push(action);
    }
}

impl vte::Perform for ActionSink {
    #[verifier::external_body]
    fn print(&mut self, c: char) {
        self.record(VtAction::Print(c));
    }

    #[verifier::external_body]
    fn execute(&mut self, byte: u8) {
        self.record(VtAction::Execute(byte));
    }

    #[verifier::external_body]
    fn hook(&mut self, params: &vte::Params, intermediates: &[u8], ignore: bool, action: char) {
        self.record(VtAction::Hook {
            params: params.iter().map(|p| p.to_vec()).collect(),
            intermediates: intermediates.to_vec(),
            ignore,
            action,
        });
    }

    #[verifier::external_body]
    fn put(&mut self, byte: u8) {
        self.record(VtAction::Put(byte));
    }

    #[verifier::external_body]
    fn unhook(&mut self) {
        self.record(VtAction::Unhook);
    }

    #[verifier::external_body]
    fn osc_dispatch(&mut self, params: &[&[u8]], bell_terminated: bool) {
        self.record(VtAction::OscDispatch {
            params: params.iter().map(|p| p.to_vec()).collect(),
            bell_terminated,
        });
    }

    #[verifier::external_body]
    fn csi_dispatch(&mut self, params: &vte::Params, intermediates: &[u8], ignore: bool, action: char) {
        self.record(VtAction::CsiDispatch {
            params: params.iter().map(|p| p.to_vec()).collect(),
            intermediates: intermediates.to_vec(),
            ignore,
            action,
        });
    }

    #[verifier::external_body]
    fn esc_dispatch(&mut self, intermediates: &[u8], ignore: bool, byte: u8) {
        self.record(VtAction::EscDispatch { intermediates: intermediates.to_vec(), ignore, byte });
    }
}

/// What `vte::Parser::advance` does with one byte: the parser's next state and the
/// actions it reports, in order. It depends on the parser's state and the byte alone.
pub uninterp spec fn vt_step(parser: vte::Parser, byte: u8) -> (vte::Parser, Seq<VtAction>);

/// `vte::Parser::advance` on one byte; the reported actions are collected in order.
#[verifier::external_body]
fn vt_advance(parser: &mut vte::Parser, byte: u8) -> (actions: Vec<VtAction>)
    ensures
        (*final(parser), actions@) == vt_step(*old(parser), byte),
{
    let mut sink = ActionSink { actions: Vec::new() };
    parser.advance(&mut sink, byte);
    sink.actions
}

/// `vte::Parser::new`: a parser in its ground state.
#[verifier::external_body]
fn vt_new() -> vte::Parser {
    vte::Parser::new()
}

/// The parser state and all actions after feeding `bytes` one by one.
pub open spec fn vt_run(parser: vte::Parser, bytes: Seq<u8>) -> (vte::Parser, Seq<VtAction>)
    decreases bytes.len(),
{
    if bytes.len() == 0 {
        (parser, Seq::empty())
    } else {
        let (p1, a1) = vt_run(parser, bytes.drop_last());
        let (p2, a2) = vt_step(p1, bytes.last());
        (p2, a1 + a2)
    }
}

/// The pen: attributes (as bits) and colors used for printed characters.
pub struct Pen {
    pub attrs: u8,
    pub fg: u32,
    pub bg: u32,
}

pub open spec fn default_pen() -> Pen {
    Pen { attrs: 0, fg: DEFAULT_FG, bg: DEFAULT_BG }
}

/// The abstract state of the interpreter: the screen, the interpreter's pen and the
/// cursor position saved by `CSI s`.
pub struct TermView {
    pub screen: ScreenView,
    pub pen: Pen,
    pub saved_row: nat,
    pub saved_col: nat,
}

/// `screen` with its pen set to `pen`.
pub open spec fn with_pen(screen: ScreenView, pen: Pen) -> ScreenView {
    ScreenView { attrs: CellAttrs::from_bits(pen.attrs), fg: pen.fg, bg: pen.bg, ..screen }
}

pub open spec fn first_or(p: Seq<u16>, d: u16) -> u16 {
    if p.len() > 0 {
        p[0]
    } else {
        d
    }
}

/// The first value of parameter `i`, or `d` when it is missing.
pub open spec fn param_or(ps: Seq<Seq<u16>>, i: int, d: u16) -> u16 {
    if 0 <= i < ps.len() {
        first_or(ps[i], d)
    } else {
        d
    }
}

pub open spec fn param_views(ps: Seq<Vec<u16>>) -> Seq<Seq<u16>> {
    Seq::new(ps.len(), |i: int| ps[i]@)
}

/// The pen after one SGR code that takes no argument (unknown codes change nothing).
pub open spec fn sgr_code(pen: Pen, code: u16) -> Pen {
    if code == 0 {
        default_pen()
    } else if code == 1 {
        Pen { attrs: with_bit(pen.attrs, ATTR_BOLD, true), ..pen }
    } else if code == 2 {
        Pen { attrs: with_bit(pen.attrs, ATTR_DIM, true), ..pen }
    } else if code == 3 {
        Pen { attrs: with_bit(pen.attrs, ATTR_ITALIC, true), ..pen }
    } else if code == 4 {
        Pen { attrs: with_bit(pen.attrs, ATTR_UNDERLINE, true), ..pen }
    } else if code == 5 {
        Pen { attrs: with_bit(pen.attrs, ATTR_BLINK, true), ..pen }
    } else if code == 7 {
        Pen { attrs: with_bit(pen.attrs, ATTR_INVERSE, true), ..pen }
    } else if code == 8 {
        Pen { attrs: with_bit(pen.attrs, ATTR_HIDDEN, true), ..pen }
    } else if code == 9 {
        Pen { attrs: with_bit(pen.attrs, ATTR_STRIKETHROUGH, true), ..pen }
    } else if code == 22 {
        Pen { attrs: with_bit(with_bit(pen.attrs, ATTR_BOLD, false), ATTR_DIM, false), ..pen }
    } else if code == 23 {
        Pen { attrs: with_bit(pen.attrs, ATTR_ITALIC, false), ..pen }
    } else if code == 24 {
        Pen { attrs: with_bit(pen.attrs, ATTR_UNDERLINE, false), ..pen }
    } else if code == 25 {
        Pen { attrs: with_bit(pen.attrs, ATTR_BLINK, false), ..pen }
    } else if code == 27 {
        Pen { attrs: with_bit(pen.attrs, ATTR_INVERSE, false), ..pen }
    } else if code == 28 {
        Pen { attrs: with_bit(pen.attrs, ATTR_HIDDEN, false), ..pen }
    } else if code == 29 {
        Pen { attrs: with_bit(pen.attrs, ATTR_STRIKETHROUGH, false), ..pen }
    } else if 30 <= code <= 37 {
        Pen { fg: palette((code - 30) as u8), ..pen }
    } else if code == 39 {
        Pen { fg: DEFAULT_FG, ..pen }
    } else if 40 <= code <= 47 {
        Pen { bg: palette((code - 40) as u8), ..pen }
    } else if code == 49 {
        Pen { bg: DEFAULT_BG, ..pen }
    } else if 90 <= code <= 97 {
        Pen { fg: palette((code - 90 + 8) as u8), ..pen }
    } else if 100 <= code <= 107 {
        Pen { bg: palette((code - 100 + 8) as u8), ..pen }
    } else {
        pen
    }
}

/// A direct 24-bit color from three parameters, packed as in `38;2;r;g;b`.
pub open spec fn true_color(r: u16, g: u16, b: u16) -> u32 {
    0xFF000000u32 | ((r as u32) << 16u32) | ((g as u32) << 8u32) | (b as u32)
}

/// The color selected by the parameters after a 38 or 48 code, and how many
/// parameters that selection consumed: `5;n` picks palette entry `n`, `2;r;g;b` a
/// direct color (missing components read as 0), anything else consumes one
/// parameter and picks nothing.
pub open spec fn extended_color(rest: Seq<Seq<u16>>) -> (Option<u32>, nat) {
    if rest.len() == 0 {
        (None, 0)
    } else if rest[0].len() > 0 && rest[0][0] == 5 {
        if rest.len() >= 2 {
            (if rest[1].len() > 0 { Some(palette(rest[1][0] as u8)) } else { None }, 2)
        } else {
            (None, 1)
        }
    } else if rest[0].len() > 0 && rest[0][0] == 2 {
        let used: nat = if rest.len() >= 4 { 4 } else { rest.len() };
        (Some(true_color(param_or(rest, 1, 0), param_or(rest, 2, 0), param_or(rest, 3, 0))), used)
    } else {
        (None, 1)
    }
}

/// The pen after a whole SGR (`CSI ... m`) parameter list, processed left to right.
pub open spec fn sgr(pen: Pen, ps: Seq<Seq<u16>>) -> Pen
    decreases ps.len(),
{
    if ps.len() == 0 {
        pen
    } else {
        let code = first_or(ps[0], 0);
        if code == 38 || code == 48 {
            let (color, used) = extended_color(ps.drop_first());
            let next = match color {
                Some(c) => if code == 38 {
                    Pen { fg: c, ..pen }
                } else {
                    Pen { bg: c, ..pen }
                },
                None => pen,
            };
            sgr(next, ps.subrange((1 + used) as int, ps.len() as int))
        } else {
            sgr(sgr_code(pen, code), ps.drop_first())
        }
    }
}

/// The screen after a C0 control: backspace, tab (to the next multiple of 8, at most
/// the last column), line feed (nothing on a screen with no rows), carriage return;
/// anything else is ignored.
pub open spec fn after_execute(s: ScreenView, byte: u8) -> ScreenView {
    if byte == 0x08 {
        s.with_cursor(s.cursor_row as int, s.cursor_col - 1)
    } else if byte == 0x09 {
        let next = (s.cursor_col / 8 + 1) * 8;
        s.with_cursor(s.cursor_row as int, if next < s.cols - 1 { next as int } else { s.cols - 1 })
    } else if byte == 0x0a {
        if s.rows == 0 {
            s
        } else {
            s.after_newline()
        }
    } else if byte == 0x0d {
        s.with_cursor(s.cursor_row as int, 0)
    } else {
        s
    }
}

/// The screen after a CSI sequence other than SGR and cursor save/restore: cursor
/// movement (A/B/C/D), cursor position (H/f, 1-based), erase in display (J 0: to
/// the end, 1: from the start to the cursor, 2 and 3: all) and erase in line (K 0:
/// to the end, 1: from the start to the cursor, 2: all); anything else is ignored.
pub open spec fn after_csi(s: ScreenView, ps: Seq<Seq<u16>>, action: char) -> ScreenView {
    let n = param_or(ps, 0, 1) as int;
    if action == 'A' {
        s.with_cursor(s.cursor_row - n, s.cursor_col as int)
    } else if action == 'B' {
        s.with_cursor(s.cursor_row + n, s.cursor_col as int)
    } else if action == 'C' {
        s.with_cursor(s.cursor_row as int, s.cursor_col + n)
    } else if action == 'D' {
        s.with_cursor(s.cursor_row as int, s.cursor_col - n)
    } else if action == 'H' || action == 'f' {
        let row = param_or(ps, 0, 1);
        let col = param_or(ps, 1, 1);
        s.with_cursor(if row > 0 { row - 1 } else { 0 }, if col > 0 { col - 1 } else { 0 })
    } else if action == 'J' {
        let mode = param_or(ps, 0, 0);
        if mode == 0 {
            s.cleared_to_end()
        } else if mode == 1 {
            s.cleared_to_cursor()
        } else if mode == 2 || mode == 3 {
            s.cleared_all()
        } else {
            s
        }
    } else if action == 'K' {
        let mode = param_or(ps, 0, 0);
        if mode == 0 {
            s.cleared_line_from_cursor()
        } else if mode == 1 {
            s.cleared_line_to_cursor()
        } else if mode == 2 {
            s.cleared_line()
        } else {
            s
        }
    } else {
        s
    }
}

/// The interpreter state after one action.
pub open spec fn after_action(t: TermView, a: VtAction) -> TermView {
    match a {
        VtAction::Print(c) => if t.screen.rows == 0 {
            TermView { screen: with_pen(t.screen, t.pen), ..t }
        } else {
            TermView { screen: with_pen(t.screen, t.pen).after_write(c), ..t }
        },
        VtAction::Execute(b) => TermView { screen: after_execute(t.screen, b), ..t },
        VtAction::CsiDispatch { params, action, .. } => if action == 'm' {
            let pen = sgr(t.pen, param_views(params@));
            TermView { screen: with_pen(t.screen, pen), pen: pen, ..t }
        } else if action == 's' {
            TermView { saved_row: t.screen.cursor_row, saved_col: t.screen.cursor_col, ..t }
        } else if action == 'u' {
            TermView { screen: t.screen.with_cursor(t.saved_row as int, t.saved_col as int), ..t }
        } else {
            TermView { screen: after_csi(t.screen, param_views(params@), action), ..t }
        },
        VtAction::EscDispatch { byte, .. } => if byte == 0x63 {
            TermView { screen: with_pen(t.screen.cleared_all(), default_pen()), pen: default_pen(), ..t }
        } else {
            t
        },
        _ => t,
    }
}

/// The interpreter state after a sequence of actions, applied in order.
pub open spec fn after_actions(t: TermView, actions: Seq<VtAction>) -> TermView
    decreases actions.len(),
{
    if actions.len() == 0 {
        t
    } else {
        after_action(after_actions(t, actions.drop_last()), actions.last())
    }
}

/// The largest screen size along either axis that the interpreter accepts, so that
/// relative cursor moves by a 16-bit parameter stay within `i32`.
pub const MAX_AXIS: usize = 0x7FFE_FFFF;

/// Terminal parser that processes PTY output and updates a `Screen`.
pub struct TerminalParser {
    parser: vte::Parser,
    screen: Screen,
    attrs: CellAttrs,
    fg: u32,
    bg: u32,
    saved_row: usize,
    saved_col: usize,
}

impl TerminalParser {
    pub closed spec fn view(&self) -> TermView {
        TermView {
            screen: self.screen@,
            pen: Pen { attrs: self.attrs@, fg: self.fg, bg: self.bg },
            saved_row: self.saved_row as nat,
            saved_col: self.saved_col as nat,
        }
    }

    /// The `vte` state machine's current state.
    pub closed spec fn vt_state(&self) -> vte::Parser {
        self.parser
    }

    /// The screen is well formed and within `MAX_AXIS` along both axes.
    pub closed spec fn wf(&self) -> bool {
        &&& self.screen.wf()
        &&& self.screen@.rows <= MAX_AXIS
        &&& self.screen@.cols <= MAX_AXIS
    }

    /// A parser over `screen` with the default pen and `vte` in its ground state.
    pub fn new(screen: Screen) -> (p: Self)
        requires
            screen.wf(),
            screen@.rows <= MAX_AXIS,
            screen@.cols <= MAX_AXIS,
        ensures
            p.wf(),
            p.view() == (TermView { screen: screen@, pen: default_pen(), saved_row: 0, saved_col: 0 }),
    {
        TerminalParser {
            parser: vt_new(),
            screen,
            attrs: CellAttrs::new(),
            fg: DEFAULT_FG,
            bg: DEFAULT_BG,
            saved_row: 0,
            saved_col: 0,
        }
    }

    /// The screen this parser writes to.
    pub fn screen(&self) -> (s: &Screen)
        requires
            self.wf(),
        ensures
            s.wf(),
            s@ == self.view().screen,
    {
        &self.screen
    }

    fn sync_pen(&mut self)
        requires
            old(self).wf(),
        ensures
            final(self).wf(),
            final(self).view() == (TermView { screen: with_pen(old(self).view().screen, old(self).view().pen), ..old(self).view() }),
            final(self).parser == old(self).parser,
    {
        self.screen.set_fg(self.fg);
        self.screen.set_bg(self.bg);
        self.screen.set_attrs(self.attrs);
        proof {
            CellAttrs::lemma_from_bits_view(self.attrs@);
            super::cell::lemma_attrs_view_injective(CellAttrs::from_bits(self.attrs@), self.attrs);
        }
    }

    fn apply_sgr_code(&mut self, code: u16)
        requires
            old(self).wf(),
        ensures
            final(self).wf(),
            final(self).view() == (TermView { pen: sgr_code(old(self).view().pen, code), ..old(self).view() }),
            final(self).parser == old(self).parser,
    {
        match code {
            0 => {
                self.attrs = CellAttrs::new();
                self.fg = DEFAULT_FG;
                self.bg = DEFAULT_BG;
            },
            1 => self.attrs.set_bold(true),
            2 => self.attrs.set_dim(true),
            3 => self.attrs.set_italic(true),
            4 => self.attrs.set_underline(true),
            5 => self.attrs.set_blink(true),
            7 => self.attrs.set_inverse(true),
            8 => self.attrs.set_hidden(true),
            9 => self.attrs.set_strikethrough(true),
            22 => {
                self.attrs.set_bold(false);
                self.attrs.set_dim(false);
            },
            23 => self.attrs.set_italic(false),
            24 => self.attrs.set_underline(false),
            25 => self.attrs.set_blink(false),
            27 => self.attrs.set_inverse(false),
            28 => self.attrs.set_hidden(false),
            29 => self.attrs.set_strikethrough(false),
            30..=37 => {
                self.fg = ansi_color((code - 30) as u8);
            },
            39 => {
                self.fg = DEFAULT_FG;
            },
            40..=47 => {
                self.bg = ansi_color((code - 40) as u8);
            },
            49 => {
                self.bg = DEFAULT_BG;
            },
            90..=97 => {
                self.fg = ansi_color((code - 90 + 8) as u8);
            },
            100..=107 => {
                self.bg = ansi_color((code - 100 + 8) as u8);
            },
            _ => {},
        }
    }

    fn extended_color_at(params: &Vec<Vec<u16>>, start: usize) -> (r: (Option<u32>, usize))
        requires
            start <= params@.len(),
        ensures
            (r.0, r.1 as nat) == extended_color(param_views(params@).subrange(start as int, params@.len() as int)),
            start + r.1 <= params@.len(),
    {
        let ghost rest = param_views(params@).subrange(start as int, params@.len() as int);
        let n = params.len();
        if start >= n {
            return (None, 0);
        }
        let head = &params[start];
        assert(rest[0] == head@);
        if head.len() > 0 && head[0] == 5 {
            if n - start >= 2 {
                let p = &params[start + 1];
                assert(rest[1] == p@);
                if p.len() > 0 {
                    let idx: u8 = #[verifier::truncate] (p[0] as u8);
                    (Some(ansi_color(idx)), 2)
                } else {
                    (None, 2)
                }
            } else {
                (None, 1)
            }
        } else if head.len() > 0 && head[0] == 2 {
            let r = Self::param_after(params, start, 1, 0);
            let g = Self::param_after(params, start, 2, 0);
            let b = Self::param_after(params, start, 3, 0);
            let used: usize = if n - start >= 4 { 4 } else { n - start };
            let color = 0xFF000000u32 | ((r as u32) << 16u32) | ((g as u32) << 8u32) | (b as u32);
            proof {
                assert(r == param_or(rest, 1, 0));
                assert(g == param_or(rest, 2, 0));
                assert(b == param_or(rest, 3, 0));
            }
            (Some(color), used)
        } else {
            (None, 1)
        }
    }

    fn param_after(params: &Vec<Vec<u16>>, start: usize, k: usize, d: u16) -> (v: u16)
        requires
            start <= params@.len(),
        ensures
            v == param_or(param_views(params@).subrange(start as int, params@.len() as int), k as int, d),
    {
        if k < params.len() - start {
            let p = &params[start + k];
            assert(param_views(params@).subrange(start as int, params@.len() as int)[k as int] == p@);
            if p.len() > 0 {
                p[0]
            } else {
                d
            }
        } else {
            d
        }
    }

    fn param_at(params: &Vec<Vec<u16>>, i: usize, d: u16) -> (v: u16)
        ensures
            v == param_or(param_views(params@), i as int, d),
    {
        if i < params.len() {
            let p = &params[i];
            if p.len() > 0 {
                p[0]
            } else {
                d
            }
        } else {
            d
        }
    }

    fn handle_sgr(&mut self, params: &Vec<Vec<u16>>)
        requires
            old(self).wf(),
        ensures
            final(self).wf(),
            final(self).view() == (TermView { pen: sgr(old(self).view().pen, param_views(params@)), ..old(self).view() }),
            final(self).parser == old(self).parser,
    {
        let ghost ps = param_views(params@);
        let ghost pen0 = self.view().pen;
        let ghost v0 = self.view();
        let n = params.len();
        let mut i: usize = 0;
        assert(ps.subrange(0, n as int) =~= ps);
        while i < n
            invariant
                self.wf(),
                n == params@.len(),
                ps == param_views(params@),
                i <= n,
                sgr(pen0, ps) == sgr(self.view().pen, ps.subrange(i as int, n as int)),
                self.view().screen == v0.screen,
                self.view().saved_row == v0.saved_row,
                self.view().saved_col == v0.saved_col,
                self.parser == old(self).parser,
            decreases n - i,
        {
            let ghost rest = ps.subrange(i as int, n as int);
            let head = &params[i];
            let code: u16 = if head.len() > 0 { head[0] } else { 0 };
            assert(rest[0] == head@);
            assert(code == first_or(rest[0], 0));
            if code == 38 || code == 48 {
                let (color, used) = Self::extended_color_at(params, i + 1);
                assert(rest.drop_first() =~= ps.subrange(i + 1, n as int));
                match color {
                    Some(c) => {
                        if code == 38 {
                            self.fg = c;
                        } else {
                            self.bg = c;
                        }
                    },
                    None => {},
                }
                assert(rest.subrange(1 + used, rest.len() as int) =~= ps.subrange(i + 1 + used, n as int));
                i = i + 1 + used;
            } else {
                self.apply_sgr_code(code);
                assert(rest.drop_first() =~= ps.subrange(i + 1, n as int));
                i = i + 1;
            }
        }
        assert(ps.subrange(n as int, n as int) =~= Seq::<Seq<u16>>::empty());
    }

    fn apply_execute(&mut self, byte: u8)
        requires
            old(self).wf(),
        ensures
            final(self).wf(),
            final(self).view() == (TermView { screen: after_execute(old(self).view().screen, byte), ..old(self).view() }),
            final(self).parser == old(self).parser,
    {
        proof {
            self.screen.lemma_wf_valid();
        }
        if byte == 0x08 {
            self.screen.move_cursor(0, -1);
        } else if byte == 0x09 {
            let (row, col) = self.screen.cursor();
            let next_tab = ((col / 8) + 1) * 8;
            let (cols, _) = self.screen.size();
            let last: usize = if cols == 0 {
                0
            } else {
                cols - 1
            };
            self.screen.set_cursor(row, if cols > 0 && next_tab < last { next_tab } else { last });
        } else if byte == 0x0a {
            let (_, rows) = self.screen.size();
            if rows > 0 {
                self.screen.newline();
            }
        } else if byte == 0x0d {
            let (row, _) = self.screen.cursor();
            self.screen.set_cursor(row, 0);
        }
    }

    fn apply_csi(&mut self, params: &Vec<Vec<u16>>, action: char)
        requires
            old(self).wf(),
            action != 'm',
            action != 's',
            action != 'u',
        ensures
            final(self).wf(),
            final(self).view() == (TermView {
                screen: after_csi(old(self).view().screen, param_views(params@), action),
                ..old(self).view()
            }),
            final(self).parser == old(self).parser,
    {
        proof {
            self.screen.lemma_wf_valid();
        }
        let n = Self::param_at(params, 0, 1);
        let n32 = n as i32;
        if action == 'A' {
            self.screen.move_cursor(-n32, 0);
        } else if action == 'B' {
            self.screen.move_cursor(n32, 0);
        } else if action == 'C' {
            self.screen.move_cursor(0, n32);
        } else if action == 'D' {
            self.screen.move_cursor(0, -n32);
        } else if action == 'H' || action == 'f' {
            let row = Self::param_at(params, 0, 1);
            let col = Self::param_at(params, 1, 1);
            let r: usize = if row > 0 { (row - 1) as usize } else { 0 };
            let c: usize = if col > 0 { (col - 1) as usize } else { 0 };
            self.screen.set_cursor(r, c);
        } else if action == 'J' {
            let mode = Self::param_at(params, 0, 0);
            if mode == 0 {
                self.screen.clear_to_end();
            } else if mode == 1 {
                self.screen.clear_to_cursor();
            } else if mode == 2 || mode == 3 {
                self.screen.clear();
            }
        } else if action == 'K' {
            let mode = Self::param_at(params, 0, 0);
            if mode == 0 {
                self.screen.clear_line_from_cursor();
            } else if mode == 1 {
                self.screen.clear_line_to_cursor();
            } else if mode == 2 {
                self.screen.clear_line();
            }
        }
    }

    /// Applies one action to the screen and the pen (see `after_action`).
    pub fn apply_action(&mut self, action: &VtAction)
        requires
            old(self).wf(),
        ensures
            final(self).wf(),
            final(self).view() == after_action(old(self).view(), *action),
            final(self).vt_state() == old(self).vt_state(),
    {
        match action {
            VtAction::Print(c) => {
                self.sync_pen();
                let (_, rows) = self.screen.size();
                if rows > 0 {
                    self.screen.write_char(*c);
                }
            },
            VtAction::Execute(b) => {
                self.apply_execute(*b);
            },
            VtAction::CsiDispatch { params, action, .. } => {
                if *action == 'm' {
                    self.handle_sgr(params);
                    self.sync_pen();
                } else if *action == 's' {
                    let (row, col) = self.screen.cursor();
                    self.saved_row = row;
                    self.saved_col = col;
                } else if *action == 'u' {
                    self.screen.set_cursor(self.saved_row, self.saved_col);
                } else {
                    self.apply_csi(params, *action);
                }
            },
            VtAction::EscDispatch { byte, .. } => {
                if *byte == 0x63 {
                    self.screen.clear();
                    self.screen.reset_attrs();
                    self.attrs = CellAttrs::new();
                    self.fg = DEFAULT_FG;
                    self.bg = DEFAULT_BG;
                    proof {
                        CellAttrs::lemma_from_bits_view(0);
                        super::cell::lemma_attrs_view_injective(CellAttrs::from_bits(0), self.attrs);
                        super::cell::lemma_attrs_view_injective(CellAttrs::from_bits(0), self.screen@.attrs);
                    }
                }
            },
            _ => {},
        }
    }

    /// Applies a list of actions in order.
    pub fn apply_actions(&mut self, actions: &Vec<VtAction>)
        requires
            old(self).wf(),
        ensures
            final(self).wf(),
            final(self).view() == after_actions(old(self).view(), actions@),
            final(self).vt_state() == old(self).vt_state(),
    {
        let ghost v0 = self.view();
        let mut j: usize = 0;
        while j < actions.len()
            invariant
                self.wf(),
                j <= actions@.len(),
                self.view() == after_actions(v0, actions@.subrange(0, j as int)),
                self.vt_state() == old(self).vt_state(),
            decreases actions@.len() - j,
        {
            self.apply_action(&actions[j]);
            assert(actions@.subrange(0, j + 1).drop_last() =~= actions@.subrange(0, j as int));
            j = j + 1;
        }
        assert(actions@.subrange(0, actions@.len() as int) =~= actions@);
    }

    /// Feeds PTY output through `vte` and applies every action it reports.
    pub fn process(&mut self, bytes: &[u8])
        requires
            old(self).wf(),
        ensures
            final(self).wf(),
            final(self).vt_state() == vt_run(old(self).vt_state(), bytes@).0,
            final(self).view() == after_actions(old(self).view(), vt_run(old(self).vt_state(), bytes@).1),
    {
        let ghost v0 = self.view();
        let ghost p0 = self.vt_state();
        let mut i: usize = 0;
        proof {
            assert(bytes@.subrange(0, 0) =~= Seq::<u8>::empty());
        }
        while i < bytes.len()
            invariant
                self.wf(),
                i <= bytes@.len(),
                self.vt_state() == vt_run(p0, bytes@.subrange(0, i as int)).0,
                self.view() == after_actions(v0, vt_run(p0, bytes@.subrange(0, i as int)).1),
            decreases bytes@.len() - i,
        {
            let ghost before = vt_run(p0, bytes@.subrange(0, i as int)).1;
            let actions = vt_advance(&mut self.parser, bytes[i]);
            self.apply_actions(&actions);
            proof {
                let pre = bytes@.subrange(0, i + 1);
                assert(pre.drop_last() =~= bytes@.subrange(0, i as int));
                lemma_after_actions_concat(v0, before, actions@);
            }
            i = i + 1;
        }
        assert(bytes@.subrange(0, bytes@.len() as int) =~= bytes@);
    }
}

/// Applying two lists of actions one after the other is applying their concatenation.
pub proof fn lemma_after_actions_concat(t: TermView, a: Seq<VtAction>, b: Seq<VtAction>)
    ensures
        after_actions(after_actions(t, a), b) == after_actions(t, a + b),
    decreases b.len(),
{
    if b.len() == 0 {
        assert(a + b =~= a);
    } else {
        lemma_after_actions_concat(t, a, b.drop_last());
        assert((a + b).drop_last() =~= a + b.drop_last());
        assert((a + b).last() == b.last());
    }
}

/// Feeding `a` and then `b` leaves the byte parser where feeding `a + b` does and
/// emits the concatenation of the two action lists.
pub proof fn lemma_vt_run_concat(p: vte::Parser, a: Seq<u8>, b: Seq<u8>)
    ensures
        vt_run(vt_run(p, a).0, b).0 == vt_run(p, a + b).0,
        vt_run(p, a).1 + vt_run(vt_run(p, a).0, b).1 == vt_run(p, a + b).1,
    decreases b.len(),
{
    if b.len() == 0 {
        assert(a + b =~= a);
        assert(vt_run(p, a).1 + Seq::<VtAction>::empty() =~= vt_run(p, a).1);
    } else {
        lemma_vt_run_concat(p, a, b.drop_last());
        assert((a + b).drop_last() =~= a + b.drop_last());
        assert((a + b).last() == b.last());
        let q = vt_run(p, a).0;
        let (p1, a1) = vt_run(q, b.drop_last());
        let (p2, a2) = vt_step(p1, b.last());
        assert(vt_run(p, a).1 + (a1 + a2) =~= (vt_run(p, a).1 + a1) + a2);
    }
}

/// Output may arrive in any chunks: processing `a` and then `b` gives the terminal
/// and the byte parser the state that processing `a + b` at once gives.
pub proof fn lemma_process_chunks(p: vte::Parser, t: TermView, a: Seq<u8>, b: Seq<u8>)
    ensures
        vt_run(vt_run(p, a).0, b).0 == vt_run(p, a + b).0,
        after_actions(after_actions(t, vt_run(p, a).1), vt_run(vt_run(p, a).0, b).1) == after_actions(
            t,
            vt_run(p, a + b).1,
        ),
{
    lemma_vt_run_concat(p, a, b);
    lemma_after_actions_concat(t, vt_run(p, a).1, vt_run(vt_run(p, a).0, b).1);
}

/// Attribute bit `i` of `after` is `v`, and every other attribute bit is as in
/// `before`.
pub open spec fn only_flag(before: u8, after: u8, i: u8, v: bool) -> bool {
    &&& bit_set(after, i) == v
    &&& forall|j: u8| j < 8 && j != i ==> bit_set(after, j) == bit_set(before, j)
}

/// Both pens have the same colors.
pub open spec fn same_colors(a: Pen, b: Pen) -> bool {
    a.fg == b.fg && a.bg == b.bg
}

proof fn lemma_with_bit_only(bits: u8, i: u8, v: bool)
    requires
        i < 8,
    ensures
        only_flag(bits, with_bit(bits, i, v), i, v),
{
    lemma_set_flag_reads_back(bits, i, i, v);
    assert forall|j: u8| j < 8 && j != i implies bit_set(with_bit(bits, i, v), j) == bit_set(bits, j) by {
        lemma_set_flag_reads_back(bits, i, j, v);
    }
}

/// What one SGR code does (`CSI code m`): 1-5 and 7-9 turn on bold, dim, italic,
/// underline, blink, inverse, hidden and strikethrough, and 23-25 and 27-29 turn the
/// matching one off, each touching no other attribute and no color; 22 turns off
/// bold and dim; 0 resets attributes and colors; 30-37 and 90-97 pick the
/// foreground from the 16-color palette, 40-47 and 100-107 the background, and 39
/// and 49 restore the defaults. The screen's pen follows, and nothing else on the
/// screen changes.
pub proof fn lemma_sgr_code(t: TermView, a: VtAction, code: u16)
    requires
        a matches VtAction::CsiDispatch { params, action, .. } && action == 'm' && param_views(params@) == seq![
            seq![code],
        ],
    ensures
        code == 1 ==> only_flag(t.pen.attrs, after_action(t, a).pen.attrs, ATTR_BOLD, true) && same_colors(t.pen, after_action(t, a).pen),
        code == 2 ==> only_flag(t.pen.attrs, after_action(t, a).pen.attrs, ATTR_DIM, true) && same_colors(t.pen, after_action(t, a).pen),
        code == 3 ==> only_flag(t.pen.attrs, after_action(t, a).pen.attrs, ATTR_ITALIC, true) && same_colors(t.pen, after_action(t, a).pen),
        code == 4 ==> only_flag(t.pen.attrs, after_action(t, a).pen.attrs, ATTR_UNDERLINE, true) && same_colors(t.pen, after_action(t, a).pen),
        code == 5 ==> only_flag(t.pen.attrs, after_action(t, a).pen.attrs, ATTR_BLINK, true) && same_colors(t.pen, after_action(t, a).pen),
        code == 7 ==> only_flag(t.pen.attrs, after_action(t, a).pen.attrs, ATTR_INVERSE, true) && same_colors(t.pen, after_action(t, a).pen),
        code == 8 ==> only_flag(t.pen.attrs, after_action(t, a).pen.attrs, ATTR_HIDDEN, true) && same_colors(t.pen, after_action(t, a).pen),
        code == 9 ==> only_flag(t.pen.attrs, after_action(t, a).pen.attrs, ATTR_STRIKETHROUGH, true) && same_colors(t.pen, after_action(t, a).pen),
        code == 23 ==> only_flag(t.pen.attrs, after_action(t, a).pen.attrs, ATTR_ITALIC, false) && same_colors(t.pen, after_action(t, a).pen),
        code == 24 ==> only_flag(t.pen.attrs, after_action(t, a).pen.attrs, ATTR_UNDERLINE, false) && same_colors(t.pen, after_action(t, a).pen),
        code == 25 ==> only_flag(t.pen.attrs, after_action(t, a).pen.attrs, ATTR_BLINK, false) && same_colors(t.pen, after_action(t, a).pen),
        code == 27 ==> only_flag(t.pen.attrs, after_action(t, a).pen.attrs, ATTR_INVERSE, false) && same_colors(t.pen, after_action(t, a).pen),
        code == 28 ==> only_flag(t.pen.attrs, after_action(t, a).pen.attrs, ATTR_HIDDEN, false) && same_colors(t.pen, after_action(t, a).pen),
        code == 29 ==> only_flag(t.pen.attrs, after_action(t, a).pen.attrs, ATTR_STRIKETHROUGH, false) && same_colors(t.pen, after_action(t, a).pen),
        code == 22 ==> !bit_set(after_action(t, a).pen.attrs, ATTR_BOLD) && !bit_set(after_action(t, a).pen.attrs, ATTR_DIM)
            && (forall|j: u8| j < 8 && j != ATTR_BOLD && j != ATTR_DIM ==> bit_set(after_action(t, a).pen.attrs, j) == bit_set(t.pen.attrs, j))
            && same_colors(t.pen, after_action(t, a).pen),
        code == 0 ==> after_action(t, a).pen.attrs == 0 && after_action(t, a).pen.fg == DEFAULT_FG && after_action(t, a).pen.bg
            == DEFAULT_BG,
        30 <= code <= 37 ==> after_action(t, a).pen == (Pen { fg: palette((code - 30) as u8), ..t.pen }),
        90 <= code <= 97 ==> after_action(t, a).pen == (Pen { fg: palette((code - 82) as u8), ..t.pen }),
        40 <= code <= 47 ==> after_action(t, a).pen == (Pen { bg: palette((code - 40) as u8), ..t.pen }),
        100 <= code <= 107 ==> after_action(t, a).pen == (Pen { bg: palette((code - 92) as u8), ..t.pen }),
        code == 39 ==> after_action(t, a).pen == (Pen { fg: DEFAULT_FG, ..t.pen }),
        code == 49 ==> after_action(t, a).pen == (Pen { bg: DEFAULT_BG, ..t.pen }),
        after_action(t, a).screen.attrs@ == after_action(t, a).pen.attrs,
        after_action(t, a).screen.fg == after_action(t, a).pen.fg,
        after_action(t, a).screen.bg == after_action(t, a).pen.bg,
        after_action(t, a).screen.grid == t.screen.grid,
        after_action(t, a).screen.cursor_row == t.screen.cursor_row,
        after_action(t, a).screen.cursor_col == t.screen.cursor_col,
        after_action(t, a).screen.scrollback == t.screen.scrollback,
{
    let ps = seq![seq![code]];
    assert(first_or(ps[0], 0) == code);
    assert(ps.drop_first() =~= Seq::<Seq<u16>>::empty());
    if code == 38 || code == 48 {
        assert(extended_color(ps.drop_first()) == (None::<u32>, 0nat));
        assert(ps.subrange(1, 1) =~= Seq::<Seq<u16>>::empty());
        assert(ps.subrange((1 + 0nat) as int, ps.len() as int) =~= Seq::<Seq<u16>>::empty());
        assert(sgr(t.pen, Seq::<Seq<u16>>::empty()) == t.pen);
        assert(sgr(t.pen, ps) == t.pen);
    } else {
        assert(sgr(sgr_code(t.pen, code), ps.drop_first()) == sgr_code(t.pen, code));
        assert(sgr(t.pen, ps) == sgr_code(t.pen, code));
    }
    CellAttrs::lemma_from_bits_view(sgr(t.pen, ps).attrs);
    let b = t.pen.attrs;
    if code == 1 { lemma_with_bit_only(b, ATTR_BOLD, true); }
    if code == 2 { lemma_with_bit_only(b, ATTR_DIM, true); }
    if code == 3 { lemma_with_bit_only(b, ATTR_ITALIC, true); }
    if code == 4 { lemma_with_bit_only(b, ATTR_UNDERLINE, true); }
    if code == 5 { lemma_with_bit_only(b, ATTR_BLINK, true); }
    if code == 7 { lemma_with_bit_only(b, ATTR_INVERSE, true); }
    if code == 8 { lemma_with_bit_only(b, ATTR_HIDDEN, true); }
    if code == 9 { lemma_with_bit_only(b, ATTR_STRIKETHROUGH, true); }
    if code == 23 { lemma_with_bit_only(b, ATTR_ITALIC, false); }
    if code == 24 { lemma_with_bit_only(b, ATTR_UNDERLINE, false); }
    if code == 25 { lemma_with_bit_only(b, ATTR_BLINK, false); }
    if code == 27 { lemma_with_bit_only(b, ATTR_INVERSE, false); }
    if code == 28 { lemma_with_bit_only(b, ATTR_HIDDEN, false); }
    if code == 29 { lemma_with_bit_only(b, ATTR_STRIKETHROUGH, false); }
    if code == 22 {
        let b1 = with_bit(b, ATTR_BOLD, false);
        lemma_with_bit_only(b, ATTR_BOLD, false);
        lemma_with_bit_only(b1, ATTR_DIM, false);
    }
}

/// A printed character lands at the cursor in the current pen: it is stored with
/// the pen's colors and attribute bits (so after `CSI 4 m` it is underlined), and
/// the cursor advances one column (away from the right edge).
pub proof fn lemma_print_uses_pen(t: TermView, c: char)
    requires
        t.screen.valid(),
        t.screen.rows > 0,
        t.screen.cursor_col + 1 < t.screen.cols,
        c != '\n',
        c != '\r',
    ensures
        after_action(t, VtAction::Print(c)).screen.grid[t.screen.cursor_row as int][t.screen.cursor_col as int].c == c,
        after_action(t, VtAction::Print(c)).screen.grid[t.screen.cursor_row as int][t.screen.cursor_col as int].attrs@
            == t.pen.attrs,
        after_action(t, VtAction::Print(c)).screen.grid[t.screen.cursor_row as int][t.screen.cursor_col as int].fg == t.pen.fg,
        after_action(t, VtAction::Print(c)).screen.grid[t.screen.cursor_row as int][t.screen.cursor_col as int].bg == t.pen.bg,
        after_action(t, VtAction::Print(c)).screen.cursor_row == t.screen.cursor_row,
        after_action(t, VtAction::Print(c)).screen.cursor_col == t.screen.cursor_col + 1,
{
    CellAttrs::lemma_from_bits_view(t.pen.attrs);
}

/// `a` is `CSI <params> <action>` with parameters `ps`.
pub open spec fn is_csi(a: VtAction, ps: Seq<Seq<u16>>, action: char) -> bool {
    a matches VtAction::CsiDispatch { params, action: act, .. } && act == action && param_views(params@) == ps
}

/// Only the cursor moved: grid, scrollback, pen and saved position are unchanged.
pub open spec fn cursor_only(t: TermView, t2: TermView) -> bool {
    &&& t2.screen.grid == t.screen.grid
    &&& t2.screen.scrollback == t.screen.scrollback
    &&& t2.screen.rows == t.screen.rows
    &&& t2.screen.cols == t.screen.cols
    &&& t2.pen == t.pen
    &&& t2.saved_row == t.saved_row
    &&& t2.saved_col == t.saved_col
}

/// Cursor movement (`CSI n A/B/C/D`, `n` defaulting to 1): up, down, forward and back
/// by `n`, stopping at the edges of the screen and changing nothing else; cursor
/// position (`CSI r;c H` or `f`, 1-based, missing or 0 meaning 1) moves to that row
/// and column, clamped to the screen.
pub proof fn lemma_csi_cursor(t: TermView, a: VtAction, ps: Seq<Seq<u16>>, action: char)
    requires
        is_csi(a, ps, action),
        t.screen.valid(),
        t.screen.rows > 0,
        t.screen.cols > 0,
    ensures
        ({
            let n = param_or(ps, 0, 1) as int;
            let row = t.screen.cursor_row as int;
            let col = t.screen.cursor_col as int;
            let t2 = after_action(t, a);
            &&& action == 'C' ==> cursor_only(t, t2) && t2.screen.cursor_row == row && t2.screen.cursor_col == (if col + n
                < t.screen.cols { col + n } else { t.screen.cols - 1 })
            &&& action == 'D' ==> cursor_only(t, t2) && t2.screen.cursor_row == row && t2.screen.cursor_col == (if col >= n {
                col - n
            } else {
                0
            })
            &&& action == 'A' ==> cursor_only(t, t2) && t2.screen.cursor_col == col && t2.screen.cursor_row == (if row >= n {
                row - n
            } else {
                0
            })
            &&& action == 'B' ==> cursor_only(t, t2) && t2.screen.cursor_col == col && t2.screen.cursor_row == (if row + n
                < t.screen.rows { row + n } else { t.screen.rows - 1 })
            &&& (action == 'H' || action == 'f') ==> {
                let r = param_or(ps, 0, 1) as int;
                let c = param_or(ps, 1, 1) as int;
                let r0 = if r > 0 { r - 1 } else { 0 };
                let c0 = if c > 0 { c - 1 } else { 0 };
                &&& cursor_only(t, t2)
                &&& t2.screen.cursor_row == (if r0 < t.screen.rows { r0 } else { t.screen.rows - 1 })
                &&& t2.screen.cursor_col == (if c0 < t.screen.cols { c0 } else { t.screen.cols - 1 })
            }
        }),
{
}

/// Erasing (`CSI n K` in the line, `CSI n J` in the display): mode 0 (the default)
/// empties from the cursor to the end, mode 1 from the start up to and including the
/// cursor, mode 2 (and 3 for the display) everything; every other cell, the cursor
/// and the pen stay as they were.
pub proof fn lemma_csi_erase(t: TermView, a: VtAction, ps: Seq<Seq<u16>>, action: char)
    requires
        is_csi(a, ps, action),
        action == 'K' || action == 'J',
        t.screen.valid(),
    ensures
        ({
            let mode = param_or(ps, 0, 0);
            let row = t.screen.cursor_row as int;
            let col = t.screen.cursor_col as int;
            let t2 = after_action(t, a);
            let erased = |r: int, c: int|
                if action == 'K' {
                    r == row && ((mode == 0 && c >= col) || (mode == 1 && c <= col) || mode == 2)
                } else {
                    (mode == 0 && (r > row || (r == row && c >= col))) || (mode == 1 && (r < row || (r == row && c
                        <= col))) || mode == 2 || mode == 3
                };
            &&& t2.screen.cursor_row == t.screen.cursor_row
            &&& t2.screen.cursor_col == t.screen.cursor_col
            &&& t2.screen.rows == t.screen.rows
            &&& t2.screen.cols == t.screen.cols
            &&& t2.screen.scrollback == t.screen.scrollback
            &&& t2.pen == t.pen
            &&& t2.screen.grid.len() == t.screen.rows
            &&& forall|r: int, c: int|
                0 <= r < t.screen.rows && 0 <= c < t.screen.cols ==> #[trigger] t2.screen.grid[r][c] == if erased(r, c) {
                    blank_cell()
                } else {
                    t.screen.grid[r][c]
                }
        }),
{
}

/// `CSI s` saves the cursor position and changes nothing on the screen; `CSI u`
/// moves the cursor back to the saved position (kept inside the screen) and changes
/// nothing else.
pub proof fn lemma_csi_save_restore(t: TermView, a: VtAction, ps: Seq<Seq<u16>>, action: char)
    requires
        is_csi(a, ps, action),
        t.screen.valid(),
    ensures
        action == 's' ==> after_action(t, a).screen == t.screen && after_action(t, a).pen == t.pen
            && after_action(t, a).saved_row == t.screen.cursor_row && after_action(t, a).saved_col == t.screen.cursor_col,
        action == 'u' && t.saved_row < t.screen.rows && t.saved_col < t.screen.cols ==> cursor_only(t, after_action(t, a))
            && after_action(t, a).screen.cursor_row == t.saved_row && after_action(t, a).screen.cursor_col == t.saved_col,
{
}

/// The C0 controls: backspace moves one column left (not past the first), tab to the
/// next multiple of 8 (at most the last column), carriage return to the first
/// column, all on the same row and changing nothing else; line feed moves to the
/// first column of the next row, and on the last row scrolls the screen up one line
/// (the top line going to the scrollback, an empty line coming in at the bottom).
pub proof fn lemma_execute(t: TermView, byte: u8)
    requires
        t.screen.valid(),
        t.screen.rows > 0,
        t.screen.cols > 0,
    ensures
        ({
            let row = t.screen.cursor_row as int;
            let col = t.screen.cursor_col as int;
            let rows = t.screen.rows as int;
            let cols = t.screen.cols as int;
            let t2 = after_action(t, VtAction::Execute(byte));
            &&& byte == 0x08 ==> cursor_only(t, t2) && t2.screen.cursor_row == row && t2.screen.cursor_col == (if col > 0 {
                col - 1
            } else {
                0
            })
            &&& byte == 0x09 ==> cursor_only(t, t2) && t2.screen.cursor_row == row && t2.screen.cursor_col == (if col + 8
                - col % 8 < cols - 1 { col + 8 - col % 8 } else { cols - 1 })
            &&& byte == 0x0d ==> cursor_only(t, t2) && t2.screen.cursor_row == row && t2.screen.cursor_col == 0
            &&& byte == 0x0a && row + 1 < rows ==> cursor_only(t, t2) && t2.screen.cursor_row == row + 1
                && t2.screen.cursor_col == 0
            &&& byte == 0x0a && row + 1 >= rows ==> {
                &&& t2.screen.cursor_row == rows - 1
                &&& t2.screen.cursor_col == 0
                &&& t2.screen.grid.len() == rows
                &&& forall|r: int| 0 <= r < rows - 1 ==> #[trigger] t2.screen.grid[r] == t.screen.grid[r + 1]
                &&& forall|c: int| 0 <= c < cols ==> #[trigger] t2.screen.grid[rows - 1][c] == blank_cell()
                &&& t2.screen.grid[rows - 1].len() == cols
                &&& t2.screen.scrollback.len() > 0
                &&& t2.screen.scrollback.last() == t.screen.grid[0]
                &&& t2.pen == t.pen
            }
        }),
{
    let rows = t.screen.rows as int;
    if byte == 0x0a && t.screen.cursor_row + 1 >= rows {
        let sb = t.screen.scrollback.push(t.screen.grid[0]);
        assert(sb.last() == t.screen.grid[0]);
        if sb.len() > super::screen::SCROLLBACK_LIMIT {
            let k = super::screen::keep_last(sb, super::screen::SCROLLBACK_LIMIT as nat);
            assert(k.last() == sb.last());
        }
    }
}

/// Extended colors: `CSI 38;5;n m` sets the foreground to palette entry `n` and
/// `CSI 38;2;r;g;b m` to the opaque color with those red, green and blue channels;
/// 48 does the same for the background. The attributes and the other color stay.
pub proof fn lemma_sgr_extended(t: TermView, a: VtAction, code: u16, x: u16, r: u16, g: u16, b: u16)
    requires
        code == 38 || code == 48,
    ensures
        is_csi(a, seq![seq![code], seq![5u16], seq![x]], 'm') ==> {
            &&& code == 38 ==> after_action(t, a).pen == (Pen { fg: palette(x as u8), ..t.pen })
            &&& code == 48 ==> after_action(t, a).pen == (Pen { bg: palette(x as u8), ..t.pen })
        },
        is_csi(a, seq![seq![code], seq![2u16], seq![r], seq![g], seq![b]], 'm') && r < 256 && g < 256 && b < 256 ==> {
            &&& code == 38 ==> after_action(t, a).pen == (Pen { fg: (0xFF000000 + r * 0x10000 + g * 0x100 + b) as u32, ..t.pen })
            &&& code == 48 ==> after_action(t, a).pen == (Pen { bg: (0xFF000000 + r * 0x10000 + g * 0x100 + b) as u32, ..t.pen })
        },
{
    let p5 = seq![seq![code], seq![5u16], seq![x]];
    assert(p5.drop_first() =~= seq![seq![5u16], seq![x]]);
    assert(p5.subrange(3, 3) =~= Seq::<Seq<u16>>::empty());
    assert(first_or(p5[0], 0) == code);
    assert(extended_color(p5.drop_first()) == (Some(palette(x as u8)), 2nat));
    let next5 = if code == 38 { Pen { fg: palette(x as u8), ..t.pen } } else { Pen { bg: palette(x as u8), ..t.pen } };
    assert(sgr(next5, p5.subrange(3, 3)) == next5);
    assert(sgr(t.pen, p5) == next5);
    let p2 = seq![seq![code], seq![2u16], seq![r], seq![g], seq![b]];
    assert(p2.drop_first() =~= seq![seq![2u16], seq![r], seq![g], seq![b]]);
    assert(p2.subrange(5, 5) =~= Seq::<Seq<u16>>::empty());
    let rest = p2.drop_first();
    assert(param_or(rest, 1, 0) == r && param_or(rest, 2, 0) == g && param_or(rest, 3, 0) == b);
    assert(first_or(p2[0], 0) == code);
    let tc = true_color(r, g, b);
    assert(extended_color(rest) == (Some(tc), 4nat));
    let next2 = if code == 38 { Pen { fg: tc, ..t.pen } } else { Pen { bg: tc, ..t.pen } };
    assert(sgr(next2, p2.subrange(5, 5)) == next2);
    assert(sgr(t.pen, p2) == next2);
    if r < 256 && g < 256 && b < 256 {
        assert(0xFF000000u32 | ((r as u32) << 16u32) | ((g as u32) << 8u32) | (b as u32) == (0xFF000000 + r * 0x10000
            + g * 0x100 + b) as u32) by (bit_vector)
            requires
                r < 256,
                g < 256,
                b < 256,
        ;
    }
}

} // verus!
