//! The pretty-printer: where line breaks and indentation go when a tree is
//! written the way KiCad writes it.
//!
//! A serializer walks the tree and tells the printer when it is about to open
//! a list, to write a further child of the open list, and to close the list.
//! The printer answers each time with the bytes that belong there, and keeps
//! the names of the open lists to decide the next answer.

use vstd::prelude::*;
use crate::names::{lemma_marks, mark};
use crate::text::str_eq;
use crate::tree::{lemma_list_view, Node, Tree};

verus! {

/// The byte of a line break.
pub const NEWLINE: u8 = 10;

/// The byte of a space.
pub const SPACE: u8 = 32;

/// The byte of an opening parenthesis.
pub const OPEN: u8 = 40;

/// The byte of a closing parenthesis.
pub const CLOSE: u8 = 41;

/// A formatting directive: how an element that starts a line is laid out.
#[derive(Clone, Copy, Debug, PartialEq, Eq, Structural)]
pub struct Indent {
    /// Line breaks written before the opening parenthesis.
    pub newline_before: i64,
    /// Whether the closing parenthesis stands on a line of its own.
    pub closing_on_new_line: bool,
    /// Line breaks written after the closing parenthesis.
    pub newline_after: i64,
}

impl Default for Indent {
    fn default() -> (d: Indent)
        ensures
            d == Indent::inline(),
    {
        Indent { newline_before: 0, closing_on_new_line: false, newline_after: 0 }
    }
}

impl Indent {
    /// No break anywhere.
    pub open spec fn inline() -> Indent {
        Indent { newline_before: 0, closing_on_new_line: false, newline_after: 0 }
    }

    /// The element starts a line.
    pub open spec fn line() -> Indent {
        Indent { newline_before: 1, closing_on_new_line: false, newline_after: 0 }
    }

    /// The element starts a line and its closing parenthesis another.
    pub open spec fn block() -> Indent {
        Indent { newline_before: 1, closing_on_new_line: true, newline_after: 0 }
    }

    /// The element starts a line after a blank line.
    pub open spec fn spaced() -> Indent {
        Indent { newline_before: 2, closing_on_new_line: false, newline_after: 0 }
    }

    /// A block after a blank line.
    pub open spec fn spaced_block() -> Indent {
        Indent { newline_before: 2, closing_on_new_line: true, newline_after: 0 }
    }

    /// A block after a blank line, followed by a line break.
    pub open spec fn closed_block() -> Indent {
        Indent { newline_before: 2, closing_on_new_line: true, newline_after: 1 }
    }

    /// One line break before the element.
    pub fn before(&mut self)
        ensures
            *final(self) == (Indent { newline_before: 1, ..*old(self) }),
    {
        self.newline_before = 1;
    }

    /// The closing parenthesis goes on a line of its own.
    pub fn close_on_new_line(&mut self)
        ensures
            *final(self) == (Indent { closing_on_new_line: true, ..*old(self) }),
    {
        self.closing_on_new_line = true;
    }

    /// A blank line before the element.
    pub fn before_double(&mut self)
        ensures
            *final(self) == (Indent { newline_before: 2, ..*old(self) }),
    {
        self.newline_before = 2;
    }

    /// One line break after the closing parenthesis.
    pub fn newline_after_closing(&mut self)
        ensures
            *final(self) == (Indent { newline_after: 1, ..*old(self) }),
    {
        self.newline_after = 1;
    }
}

/// The rules for elements beneath a footprint.  `parent` is the name of the
/// list that is open, `in_polygon` tells whether a polygon outline or a fill
/// result is open anywhere above, `points` is the running count of points in
/// the open point list.
pub open spec fn module_rule(ele: Seq<char>, parent: Option<Seq<char>>, in_polygon: bool, points: int) -> Option<Indent> {
    if parent == Some("module"@) && (ele == "at"@ || ele == "descr"@ || ele == "fp_line"@ || ele == "fp_poly"@
        || ele == "pad"@ || ele == "path"@ || ele == "fp_circle"@) {
        Some(Indent::line())
    } else if parent == Some("module"@) && (ele == "model"@ || ele == "fp_text"@) {
        Some(Indent::block())
    } else if (parent == Some("fp_text"@) || parent == Some("gr_text"@)) && ele == "effects"@ {
        Some(Indent::line())
    } else if parent == Some("pts"@) && ele == "xy"@ && ((points > 0 && points % 4 == 0) || (points == 0
        && in_polygon)) {
        Some(Indent::line())
    } else if parent == Some("model"@) && (ele == "at"@ || ele == "scale"@ || ele == "rotate"@) {
        Some(Indent::line())
    } else if parent == Some("pad"@) && ele == "net"@ {
        Some(Indent::line())
    } else {
        None
    }
}

/// The rules for elements of a board.  `in_board` tells whether a board is
/// open anywhere above.
pub open spec fn layout_rule(ele: Seq<char>, parent: Option<Seq<char>>, in_board: bool) -> Option<Indent> {
    if !in_board {
        None
    } else if parent == Some("kicad_pcb"@) && (ele == "page"@ || ele == "gr_circle"@) {
        Some(Indent::spaced())
    } else if parent == Some("kicad_pcb"@) && ele == "module"@ {
        Some(Indent::spaced_block())
    } else if parent == Some("kicad_pcb"@) && (ele == "net"@ || ele == "gr_line"@ || ele == "gr_arc"@ || ele
        == "segment"@ || ele == "via"@) {
        Some(Indent::line())
    } else if parent == Some("kicad_pcb"@) && (ele == "layers"@ || ele == "gr_text"@ || ele == "dimension"@) {
        Some(Indent::block())
    } else if parent == Some("kicad_pcb"@) && ele == "setup"@ {
        Some(Indent::closed_block())
    } else if parent == Some("kicad_pcb"@) && (ele == "general"@ || ele == "net_class"@ || ele == "zone"@) {
        Some(Indent::spaced_block())
    } else if parent == Some("general"@) || parent == Some("layers"@) || parent == Some("setup"@) || parent
        == Some("pcbplotparams"@) || parent == Some("net_class"@) {
        Some(Indent::line())
    } else if parent == Some("dimension"@) && (ele == "gr_text"@ || ele == "feature1"@ || ele == "feature2"@
        || ele == "crossbar"@ || ele == "arrow1a"@ || ele == "arrow1b"@ || ele == "arrow2a"@ || ele
        == "arrow2b"@) {
        Some(Indent::line())
    } else if parent == Some("zone"@) && (ele == "connect_pads"@ || ele == "min_thickness"@ || ele == "fill"@) {
        Some(Indent::line())
    } else if parent == Some("zone"@) && (ele == "polygon"@ || ele == "filled_polygon"@) {
        Some(Indent::block())
    } else if parent == Some("polygon"@) || parent == Some("filled_polygon"@) {
        Some(Indent::line())
    } else {
        None
    }
}

/// The directive of an element named `ele`: none for an element without a
/// name, else what the footprint rules give, else what the board rules give.
pub open spec fn rule(ele: Seq<char>, parent: Option<Seq<char>>, in_polygon: bool, points: int, in_board: bool) -> Option<Indent> {
    if ele.len() == 0 {
        None
    } else if module_rule(ele, parent, in_polygon, points) is Some {
        module_rule(ele, parent, in_polygon, points)
    } else {
        layout_rule(ele, parent, in_board)
    }
}

/// Whether an optional name is the given one.
pub fn is_named(parent: Option<&str>, what: &str) -> (same: bool)
    ensures
        same == (match parent {
            Some(p) => p@ == what@,
            None => false,
        }),
{
    match parent {
        Some(p) => str_eq(p, what),
        None => false,
    }
}

/// The characters of an optional name.
pub open spec fn name_view(name: Option<&str>) -> Option<Seq<char>> {
    match name {
        Some(s) => Some(s@),
        None => None,
    }
}

/// The footprint rules, computed.
pub fn module_directive(ele: &str, parent: Option<&str>, in_polygon: bool, points: i64) -> (d: Option<Indent>)
    ensures
        d == module_rule(ele@, name_view(parent), in_polygon, points as int),
{
    let mut indent = Indent::default();
    indent.before();
    if is_named(parent, "module") {
        if str_eq(ele, "at") || str_eq(ele, "descr") || str_eq(ele, "fp_line") || str_eq(ele, "fp_poly")
            || str_eq(ele, "pad") || str_eq(ele, "path") || str_eq(ele, "fp_circle") {
            return Some(indent);
        }
        if str_eq(ele, "model") || str_eq(ele, "fp_text") {
            indent.close_on_new_line();
            return Some(indent);
        }
    }
    if (is_named(parent, "fp_text") || is_named(parent, "gr_text")) && str_eq(ele, "effects") {
        return Some(indent);
    }
    if is_named(parent, "pts") && str_eq(ele, "xy") {
        if points > 0 && points % 4 == 0 {
            return Some(indent);
        }
        if points == 0 && in_polygon {
            return Some(indent);
        }
    }
    if is_named(parent, "model") && (str_eq(ele, "at") || str_eq(ele, "scale") || str_eq(ele, "rotate")) {
        return Some(indent);
    }
    if is_named(parent, "pad") && str_eq(ele, "net") {
        return Some(indent);
    }
    None
}

/// The board rules, computed.
pub fn layout_directive(ele: &str, parent: Option<&str>, in_board: bool) -> (d: Option<Indent>)
    ensures
        d == layout_rule(ele@, name_view(parent), in_board),
{
    if !in_board {
        return None;
    }
    let mut indent = Indent::default();
    indent.before();
    if is_named(parent, "kicad_pcb") {
        if str_eq(ele, "page") || str_eq(ele, "gr_circle") {
            indent.before_double();
            return Some(indent);
        }
        if str_eq(ele, "module") {
            indent.before_double();
            indent.close_on_new_line();
            return Some(indent);
        }
        if str_eq(ele, "net") || str_eq(ele, "gr_line") || str_eq(ele, "gr_arc") || str_eq(ele, "segment")
            || str_eq(ele, "via") {
            return Some(indent);
        }
        if str_eq(ele, "layers") || str_eq(ele, "gr_text") || str_eq(ele, "dimension") {
            indent.close_on_new_line();
            return Some(indent);
        }
        if str_eq(ele, "setup") {
            indent.before_double();
            indent.close_on_new_line();
            indent.newline_after_closing();
            return Some(indent);
        }
        if str_eq(ele, "general") || str_eq(ele, "net_class") || str_eq(ele, "zone") {
            indent.before_double();
            indent.close_on_new_line();
            return Some(indent);
        }
    }
    if is_named(parent, "general") || is_named(parent, "layers") || is_named(parent, "setup") || is_named(
        parent,
        "pcbplotparams",
    ) || is_named(parent, "net_class") {
        return Some(indent);
    }
    if is_named(parent, "dimension") {
        if str_eq(ele, "gr_text") || str_eq(ele, "feature1") || str_eq(ele, "feature2") || str_eq(
            ele,
            "crossbar",
        ) || str_eq(ele, "arrow1a") || str_eq(ele, "arrow1b") || str_eq(ele, "arrow2a") || str_eq(
            ele,
            "arrow2b",
        ) {
            return Some(indent);
        }
    }
    if is_named(parent, "zone") {
        if str_eq(ele, "connect_pads") || str_eq(ele, "min_thickness") || str_eq(ele, "fill") {
            return Some(indent);
        }
        if str_eq(ele, "polygon") || str_eq(ele, "filled_polygon") {
            indent.close_on_new_line();
            return Some(indent);
        }
    }
    if is_named(parent, "polygon") || is_named(parent, "filled_polygon") {
        return Some(indent);
    }
    None
}

/// An open list as the printer remembers it: its name and its directive.
pub ghost struct Frame {
    pub name: Seq<char>,
    pub directive: Option<Indent>,
}

/// The state of the printer: the indentation depth, the open lists from the
/// outermost to the innermost (`None` for a list without a name), and the
/// running count of points in the current point list.
pub ghost struct Printer {
    pub indent: int,
    pub stack: Seq<Option<Frame>>,
    pub points: int,
}

/// `n` line breaks.
pub open spec fn newlines(n: int) -> Seq<u8> {
    Seq::new(if n > 0 { n as nat } else { 0 }, |i: int| NEWLINE)
}

/// `level` times two spaces.
pub open spec fn padding(level: int) -> Seq<u8> {
    Seq::new(if level > 0 { (2 * level) as nat } else { 0 }, |i: int| SPACE)
}

/// `n` line breaks, then the padding of `level`.
pub open spec fn indentation(level: int, n: int) -> Seq<u8> {
    newlines(n) + padding(level)
}

/// The name by which the rules look a value up: an atom's text, or the text
/// of a list's first child where that is an atom.
pub open spec fn head(t: Tree) -> Option<Seq<char>> {
    match t {
        Tree::Atom(s) => Some(s),
        Tree::List(l) => if l.len() > 0 && l[0] is Atom {
            Some(l[0]->Atom_0)
        } else {
            None
        },
        Tree::Empty => None,
    }
}

/// The name under which a list is opened, given its first child if it has
/// one: that child's text where it is an atom, else the empty name.
pub open spec fn opened_name(first: Option<Tree>) -> Seq<char> {
    match first {
        Some(Tree::Atom(s)) => s,
        _ => Seq::empty(),
    }
}

/// The directive of a frame, if it has a name and a directive.
pub open spec fn frame_directive(f: Option<Frame>) -> Option<Indent> {
    match f {
        Some(fr) => fr.directive,
        None => None,
    }
}

/// Whether a frame has the given name.
pub open spec fn frame_named(f: Option<Frame>, what: Seq<char>) -> bool {
    f is Some && f->Some_0.name == what
}

impl Printer {
    /// The state before anything is open.
    pub open spec fn start(level: int) -> Printer {
        Printer { indent: level, stack: Seq::empty(), points: 0 }
    }

    /// Whether a list named `what` is open, at any depth.
    pub open spec fn has(self, what: Seq<char>) -> bool {
        exists|i: int| 0 <= i < self.stack.len() && frame_named(#[trigger] self.stack[i], what)
    }

    /// The name of the innermost open list.
    pub open spec fn parent(self) -> Option<Seq<char>> {
        if self.stack.len() > 0 && self.stack.last() is Some {
            Some(self.stack.last()->Some_0.name)
        } else {
            None
        }
    }

    /// Whether the innermost open list is named `what`.
    pub open spec fn parent_is(self, what: Seq<char>) -> bool {
        self.parent() == Some(what)
    }

    /// Whether a polygon outline or a fill result is open.
    pub open spec fn in_polygon(self) -> bool {
        self.has("polygon"@) || self.has("filled_polygon"@)
    }

    /// The directive of an element named `ele` that would be opened now.
    pub open spec fn directive(self, ele: Seq<char>) -> Option<Indent> {
        rule(ele, self.parent(), self.in_polygon(), self.points, self.has("kicad_pcb"@))
    }

    /// The directive of a value that would be written now.
    pub open spec fn value_directive(self, value: Tree) -> Option<Indent> {
        match head(value) {
            Some(ele) => self.directive(ele),
            None => None,
        }
    }

    /// The count of points once a list named `ele` is open: opening a point
    /// list starts at zero, each point in it counts one, and after four the
    /// count starts again at one.
    pub open spec fn points_after(self, ele: Seq<char>) -> int {
        let c = if ele == "pts"@ {
            0
        } else {
            self.points
        };
        if self.parent_is("pts"@) && ele == "xy"@ {
            if c + 1 == 5 {
                1
            } else {
                c + 1
            }
        } else {
            c
        }
    }

    /// The state once a list named `ele` is open (`ele` empty for a list
    /// without a name).
    pub open spec fn open(self, ele: Seq<char>) -> Printer {
        let d = self.directive(ele);
        Printer {
            indent: if d is Some {
                self.indent + 1
            } else {
                self.indent
            },
            stack: self.stack.push(
                if ele.len() > 0 {
                    Some(Frame { name: ele, directive: d })
                } else {
                    None
                },
            ),
            points: self.points_after(ele),
        }
    }

    /// What is written to open a list named `ele`: for an element with a
    /// directive its line breaks and the indentation one level deeper, then
    /// the parenthesis.
    pub open spec fn open_bytes(self, ele: Seq<char>) -> Seq<u8> {
        match self.directive(ele) {
            Some(d) => indentation(self.indent + 1, d.newline_before as int) + seq![OPEN],
            None => seq![OPEN],
        }
    }

    /// What is written before a further child of the open list: nothing
    /// before a list that starts a line, else one space.
    pub open spec fn element_bytes(self, value: Tree) -> Seq<u8> {
        if value is List && self.value_directive(value) is Some {
            Seq::empty()
        } else {
            seq![SPACE]
        }
    }

    /// The directive of the innermost open list.
    pub open spec fn top_directive(self) -> Option<Indent> {
        if self.stack.len() > 0 {
            frame_directive(self.stack.last())
        } else {
            None
        }
    }

    /// Whether the innermost open list is the outermost one and a document
    /// root: a board or a footprint.
    pub open spec fn closes_document(self) -> bool {
        self.stack.len() == 1 && (self.parent_is("module"@) || self.parent_is("kicad_pcb"@))
    }

    /// The state once the innermost open list is closed.
    pub open spec fn close(self) -> Printer {
        if self.stack.len() == 0 {
            self
        } else {
            Printer {
                indent: if self.top_directive() is Some {
                    self.indent - 1
                } else {
                    self.indent
                },
                stack: self.stack.drop_last(),
                points: self.points,
            }
        }
    }

    /// What is written to close the innermost open list: a line break and
    /// the list's own indentation where its directive asks for it; the
    /// parenthesis; the line breaks that the directive puts after it.  The
    /// parenthesis of the document's root stands on a line of its own: a
    /// line break goes before it and another after it, so that the document
    /// ends with one.
    pub open spec fn close_bytes(self) -> Seq<u8> {
        let lead = match self.top_directive() {
            Some(d) => if d.closing_on_new_line {
                indentation(self.indent, 1)
            } else {
                Seq::empty()
            },
            None => Seq::empty(),
        };
        let root = if self.closes_document() {
            seq![NEWLINE]
        } else {
            Seq::empty()
        };
        let trail = match self.top_directive() {
            Some(d) => newlines(d.newline_after as int),
            None => Seq::empty(),
        };
        lead + root + seq![CLOSE] + trail + root
    }
}

/// The pretty-printer.
pub struct KicadFormatter {
    /// The depth of indentation that the printer started at.
    indent: i64,
    /// How many of the open lists have a directive: each makes the depth one
    /// deeper.
    deeper: usize,
    stack: Vec<Option<(String, Option<Indent>)>>,
    pts_xy_count: i64,
}

/// The frame that a stack entry stands for.
pub open spec fn frame_of(entry: Option<(String, Option<Indent>)>) -> Option<Frame> {
    match entry {
        Some((name, directive)) => Some(Frame { name: name@, directive }),
        None => None,
    }
}

impl View for KicadFormatter {
    type V = Printer;

    closed spec fn view(&self) -> Printer {
        Printer {
            indent: self.indent as int + self.deeper as int,
            stack: Seq::new(self.stack@.len(), |i: int| frame_of(self.stack@[i])),
            points: self.pts_xy_count as int,
        }
    }
}

/// How many of the stack's entries carry a directive.
spec fn directives(stack: Seq<Option<(String, Option<Indent>)>>) -> nat
    decreases stack.len(),
{
    if stack.len() == 0 {
        0
    } else {
        directives(stack.drop_last()) + if frame_directive(frame_of(stack.last())) is Some {
            1nat
        } else {
            0nat
        }
    }
}

/// One more entry counts one more directive where it carries one.
proof fn lemma_directives_push(stack: Seq<Option<(String, Option<Indent>)>>, entry: Option<(String, Option<Indent>)>)
    ensures
        directives(stack.push(entry)) == directives(stack) + if frame_directive(frame_of(entry)) is Some {
            1nat
        } else {
            0nat
        },
{
    assert(stack.push(entry).drop_last() =~= stack);
}

/// No more entries carry a directive than there are entries.
proof fn lemma_directives_bound(stack: Seq<Option<(String, Option<Indent>)>>)
    ensures
        directives(stack) <= stack.len(),
    decreases stack.len(),
{
    if stack.len() > 0 {
        lemma_directives_bound(stack.drop_last());
    }
}

/// `nls` line breaks and the indentation of the depth `level`.
fn indentation_bytes(level: i128, nls: i64) -> (out: Vec<u8>)
    ensures
        out@ == indentation(level as int, nls as int),
{
    let mut out: Vec<u8> = Vec::new();
    let mut k: i64 = 0;
    while k < nls
        invariant
            k == 0 || 0 < k <= nls,
            out@ =~= newlines(k as int),
        decreases nls - k,
    {
        out.push(NEWLINE);
        k += 1;
    }
    assert(out@ =~= newlines(nls as int));
    let mut j: i128 = 0;
    while j < level
        invariant
            j == 0 || 0 < j <= level,
            out@ =~= newlines(nls as int) + padding(j as int),
        decreases level - j,
    {
        out.push(SPACE);
        out.push(SPACE);
        j += 1;
    }
    assert(out@ =~= newlines(nls as int) + padding(level as int));
    out
}

/// The tree of an optional node.
pub open spec fn first_view(value: Option<&Node>) -> Option<Tree> {
    match value {
        Some(n) => Some(n@),
        None => None,
    }
}

impl KicadFormatter {
    /// What holds of every printer that was made by [`KicadFormatter::new`]
    /// and driven through its own methods: its counters are in step with the
    /// lists that are open.
    pub closed spec fn wf(&self) -> bool {
        &&& 0 <= self.pts_xy_count <= 4
        &&& self.deeper == directives(self.stack@)
    }

    /// A printer with nothing open, at the given depth.
    pub fn new(initial_indent_level: i64) -> (f: KicadFormatter)
        ensures
            f@ == Printer::start(initial_indent_level as int),
            f.wf(),
    {
        let f = KicadFormatter { indent: initial_indent_level, deeper: 0, stack: Vec::new(), pts_xy_count: 0 };
        assert(f@.stack =~= Seq::empty());
        f
    }

    /// The current depth of indentation: the depth that the printer started
    /// at, and one more for each open list with a directive.
    pub fn depth(&self) -> (d: i128)
        ensures
            d == self@.indent,
    {
        self.indent as i128 + self.deeper as i128
    }

    /// Whether a list named `what` is open, at any depth.
    pub fn is(&self, what: &str) -> (found: bool)
        ensures
            found == self@.has(what@),
    {
        let mut i: usize = 0;
        while i < self.stack.len()
            invariant
                i <= self.stack.len(),
                forall|j: int| 0 <= j < i ==> !frame_named(#[trigger] self@.stack[j], what@),
            decreases self.stack.len() - i,
        {
            match &self.stack[i] {
                Some((name, _)) => {
                    if str_eq(name.as_str(), what) {
                        assert(frame_named(self@.stack[i as int], what@));
                        return true;
                    }
                },
                None => {},
            }
            i += 1;
        }
        false
    }

    /// The name of the innermost open list.
    fn parent(&self) -> (p: Option<&str>)
        ensures
            name_view(p) == self@.parent(),
    {
        let n = self.stack.len();
        if n > 0 {
            match &self.stack[n - 1] {
                Some((name, _)) => Some(name.as_str()),
                None => None,
            }
        } else {
            None
        }
    }

    /// Whether the innermost open list is named `what`.
    pub fn parent_is(&self, what: &str) -> (same: bool)
        ensures
            same == self@.parent_is(what@),
    {
        is_named(self.parent(), what)
    }

    /// `nls` line breaks and the indentation of the current depth.
    fn indent(&self, nls: i64) -> (out: Vec<u8>)
        ensures
            out@ == indentation(self@.indent, nls as int),
    {
        indentation_bytes(self.depth(), nls)
    }

    /// `nls` line breaks and the indentation one level deeper.
    fn indent_plus(&self, nls: i64) -> (out: Vec<u8>)
        ensures
            out@ == indentation(self@.indent + 1, nls as int),
    {
        indentation_bytes(self.depth() + 1, nls)
    }

    /// The footprint rules, applied to the lists that are open.
    pub fn want_indent_module(&self, ele: &str) -> (d: Option<Indent>)
        ensures
            d == module_rule(ele@, self@.parent(), self@.in_polygon(), self@.points),
    {
        let in_polygon = self.is("polygon") || self.is("filled_polygon");
        module_directive(ele, self.parent(), in_polygon, self.pts_xy_count)
    }

    /// The board rules, applied to the lists that are open.
    pub fn want_indent_layout(&self, ele: &str) -> (d: Option<Indent>)
        ensures
            d == layout_rule(ele@, self@.parent(), self@.has("kicad_pcb"@)),
    {
        layout_directive(ele, self.parent(), self.is("kicad_pcb"))
    }

    /// The directive of an element named `ele`.
    fn directive_of(&self, ele: &str) -> (d: Option<Indent>)
        ensures
            d == self@.directive(ele@),
    {
        if ele.is_empty() {
            return None;
        }
        let i = self.want_indent_module(ele);
        if i.is_some() {
            return i;
        }
        self.want_indent_layout(ele)
    }

    /// The directive of a value that is about to be written.
    pub fn want_indent(&self, value: &Node) -> (d: Option<Indent>)
        ensures
            d == self@.value_directive(value@),
    {
        match value {
            Node::List(l) => {
                proof {
                    lemma_list_view(*l);
                }
                if l.len() == 0 {
                    None
                } else {
                    match &l[0] {
                        Node::Atom(ele) => self.directive_of(ele.as_str()),
                        _ => None,
                    }
                }
            },
            Node::Empty => None,
            Node::Atom(ele) => self.directive_of(ele.as_str()),
        }
    }

    /// Opens a list whose first child is `value` (none for an empty list):
    /// returns what is to be written, the opening parenthesis included.
    pub fn open(&mut self, value: Option<&Node>) -> (out: Vec<u8>)
        requires
            old(self).wf(),
        ensures
            final(self).wf(),
            final(self)@ == old(self)@.open(opened_name(first_view(value))),
            out@ == old(self)@.open_bytes(opened_name(first_view(value))),
    {
        proof {
            reveal_strlit("");
        }
        let ele: &str = match value {
            Some(Node::Atom(s)) => s.as_str(),
            _ => "",
        };
        assert(ele@ == opened_name(first_view(value)));
        let want = self.directive_of(ele);
        let counted = self.parent_is("pts") && str_eq(ele, "xy");
        let mut out: Vec<u8> = Vec::new();
        if let Some(d) = want {
            if d.newline_before > 0 {
                out = self.indent_plus(d.newline_before);
            }
        }
        if str_eq(ele, "pts") {
            self.pts_xy_count = 0;
        }
        if counted {
            self.pts_xy_count += 1;
            if self.pts_xy_count == 5 {
                self.pts_xy_count = 1;
            }
        }
        let entry = if !ele.is_empty() {
            Some((ele.to_owned(), want))
        } else {
            None
        };
        proof {
            lemma_directives_push(self.stack@, entry);
            lemma_directives_bound(self.stack@);
            assert(old(self)@.stack.push(frame_of(entry)) =~= Seq::new(
                self.stack@.push(entry).len(),
                |i: int| frame_of(self.stack@.push(entry)[i]),
            ));
        }
        self.stack.push(entry);
        let open_lists = self.stack.len();
        if want.is_some() {
            assert(self.deeper < open_lists);
            self.deeper += 1;
        }
        out.push(OPEN);
        out
    }

    /// What is written before `value`, a further child of the open list.
    pub fn element(&self, value: &Node) -> (out: Vec<u8>)
        ensures
            out@ == self@.element_bytes(value@),
    {
        let mut out: Vec<u8> = Vec::new();
        if self.want_indent(value).is_none() {
            out.push(SPACE);
        } else if let Node::Atom(_) = value {
            out.push(SPACE);
        }
        out
    }

    /// Closes the innermost open list: returns what is to be written, the
    /// closing parenthesis included.
    pub fn close(&mut self) -> (out: Vec<u8>)
        requires
            old(self).wf(),
        ensures
            final(self).wf(),
            final(self)@ == old(self)@.close(),
            out@ == old(self)@.close_bytes(),
    {
        let mut out: Vec<u8> = Vec::new();
        let ghost before = self.stack@;
        let root = self.stack.len() == 1 && (self.parent_is("module") || self.parent_is("kicad_pcb"));
        let top = self.stack.pop();
        proof {
            if before.len() > 0 {
                assert(before.drop_last() =~= self.stack@);
                assert(old(self)@.stack.drop_last() =~= self@.stack);
            } else {
                assert(old(self)@.stack =~= self@.stack);
            }
        }
        let mut after: i64 = 0;
        if let Some(Some((_, Some(d)))) = top {
            self.deeper -= 1;
            if d.closing_on_new_line {
                out = self.indent_plus(1);
            }
            after = d.newline_after;
        }
        if root {
            out.push(NEWLINE);
        }
        out.push(CLOSE);
        let mut k: i64 = 0;
        let ghost head = out@;
        while k < after
            invariant
                k == 0 || 0 < k <= after,
                out@ =~= head + newlines(k as int),
            decreases after - k,
        {
            out.push(NEWLINE);
            k += 1;
        }
        assert(out@ =~= head + newlines(after as int));
        if root {
            out.push(NEWLINE);
        }
        out
    }
}

impl Printer {
    /// The state after `k` points of the open point list were written: each
    /// was opened under the name `xy` and closed again.
    pub open spec fn after_points(self, k: nat) -> Printer
        decreases k,
    {
        if k == 0 {
            self
        } else {
            self.after_points((k - 1) as nat).open("xy"@).close()
        }
    }
}

/// The tree of a point: a list named `xy`.
pub open spec fn is_point(t: Tree) -> bool {
    t is List && head(t) == Some("xy"@)
}

/// Closing a list undoes what opening it did to the depth and to the open
/// lists: the depth is one deeper only while a list with a directive is open.
pub proof fn lemma_open_then_close(s: Printer, ele: Seq<char>)
    ensures
        s.open(ele).close().indent == s.indent,
        s.open(ele).close().stack == s.stack,
        s.open(ele).indent == s.indent + if s.directive(ele) is Some {
            1int
        } else {
            0int
        },
{
    let o = s.open(ele);
    assert(o.stack.drop_last() =~= s.stack);
    if ele.len() > 0 {
        assert(o.stack.last() == Some(Frame { name: ele, directive: s.directive(ele) }));
    } else {
        assert(o.stack.last() == None::<Frame>);
        assert(s.directive(ele) is None);
    }
}

/// Writing the points of a point list changes nothing but the count of
/// points, which runs from one to four and starts again.
proof fn lemma_points_state(s: Printer, k: nat)
    requires
        s.parent_is("pts"@),
        s.points == 0,
    ensures
        s.after_points(k).stack == s.stack,
        s.after_points(k).indent == s.indent,
        s.after_points(k).points == if k == 0 {
            0int
        } else {
            (k - 1) % 4 + 1
        },
    decreases k,
{
    if k > 0 {
        let a = s.after_points((k - 1) as nat);
        lemma_points_state(s, (k - 1) as nat);
        lemma_open_then_close(a, "xy"@);
        reveal_strlit("xy");
        reveal_strlit("pts");
        assert("xy"@ != "pts"@);
        assert(a.parent_is("pts"@));
    }
}

/// In a point list a line break goes before the first point where the list
/// belongs to a polygon outline or to a fill result, and before every point
/// that follows a full group of four; before no other point.  So the points
/// of an outline that start a line are the first, the fifth, the ninth and so
/// on, however many there are.  Where the break goes, the space that would
/// separate the point from what precedes it is left out.
pub proof fn lemma_point_breaks(s: Printer, k: nat, point: Tree)
    requires
        s.parent_is("pts"@),
        s.points == 0,
        is_point(point),
    ensures
        s.after_points(k).directive("xy"@) is Some <==> k % 4 == 0 && (k > 0 || s.in_polygon()),
        s.after_points(k).open_bytes("xy"@) == if k % 4 == 0 && (k > 0 || s.in_polygon()) {
            indentation(s.indent + 1, 1) + seq![OPEN]
        } else {
            seq![OPEN]
        },
        s.after_points(k).element_bytes(point) == if k % 4 == 0 && (k > 0 || s.in_polygon()) {
            Seq::<u8>::empty()
        } else {
            seq![SPACE]
        },
{
    lemma_points_state(s, k);
    let a = s.after_points(k);
    assert(a.parent() == Some("pts"@));
    assert(a.in_polygon() == s.in_polygon());
    assert(a.has("kicad_pcb"@) == s.has("kicad_pcb"@));
    lemma_marks();
    reveal_strlit("pts");
    reveal_strlit("pad");
    assert("pts"@[1] != "pad"@[1]);
    assert(mark("pts"@) == (3nat, 'p', ' '));
    assert(layout_rule("xy"@, a.parent(), a.has("kicad_pcb"@)) is None);
    assert(module_rule("xy"@, a.parent(), a.in_polygon(), a.points) is Some <==> (a.points > 0 && a.points % 4
        == 0) || (a.points == 0 && a.in_polygon()));
}

/// A list that is opened under a name is open from then on, as the
/// innermost, and the lists that were open stay open.
pub proof fn lemma_open_is_remembered(s: Printer, ele: Seq<char>, what: Seq<char>)
    requires
        ele.len() > 0,
    ensures
        s.open(ele).parent_is(ele),
        s.open(ele).has(ele),
        s.has(what) ==> s.open(ele).has(what),
{
    let o = s.open(ele);
    let top = o.stack.len() - 1;
    assert(frame_named(o.stack[top], ele));
    if s.has(what) {
        let i = choose|i: int| 0 <= i < s.stack.len() && frame_named(#[trigger] s.stack[i], what);
        assert(frame_named(o.stack[i], what));
    }
}

/// The points of a polygon outline or of a fill result: once the point
/// list is opened below it, the point that follows `k` others starts a line
/// where `k` is a multiple of four, and only there.  So the first, the
/// fifth, the ninth point and so on start a line, whatever the depth and
/// however many points there are; for every other point the opening
/// parenthesis alone is written, after one space.
pub proof fn lemma_outline_breaks(t: Printer, k: nat, point: Tree)
    requires
        t.in_polygon(),
        is_point(point),
    ensures
        t.open("pts"@).after_points(k).open_bytes("xy"@) == if k % 4 == 0 {
            indentation(t.open("pts"@).indent + 1, 1) + seq![OPEN]
        } else {
            seq![OPEN]
        },
        t.open("pts"@).after_points(k).open_bytes("xy"@)[0] == if k % 4 == 0 {
            NEWLINE
        } else {
            OPEN
        },
        t.open("pts"@).after_points(k).element_bytes(point) == if k % 4 == 0 {
            Seq::<u8>::empty()
        } else {
            seq![SPACE]
        },
{
    let s = t.open("pts"@);
    reveal_strlit("pts");
    reveal_strlit("xy");
    assert("pts"@.len() == 3 && "xy"@.len() == 2);
    lemma_open_is_remembered(t, "pts"@, "polygon"@);
    lemma_open_is_remembered(t, "pts"@, "filled_polygon"@);
    assert(s.points == 0);
    lemma_point_breaks(s, k, point);
    assert(newlines(1)[0] == NEWLINE);
}

/// Whether a byte is a space or a line break.
pub open spec fn blank(b: u8) -> bool {
    b == SPACE || b == NEWLINE
}

/// Whether all the bytes are spaces and line breaks.
pub open spec fn all_blank(bytes: Seq<u8>) -> bool {
    forall|i: int| 0 <= i < bytes.len() ==> blank(#[trigger] bytes[i])
}

/// The printer writes nothing but spaces, line breaks and the two
/// parentheses: what opens a list is blank up to the parenthesis that ends
/// it, what stands before a child is blank, and what closes a list is blank
/// but for its one parenthesis.
pub proof fn lemma_only_layout_is_written(s: Printer, ele: Seq<char>, value: Tree)
    ensures
        s.open_bytes(ele).len() > 0,
        s.open_bytes(ele).last() == OPEN,
        all_blank(s.open_bytes(ele).drop_last()),
        all_blank(s.element_bytes(value)),
        exists|k: int|
            0 <= k < s.close_bytes().len() && s.close_bytes()[k] == CLOSE && all_blank(s.close_bytes().take(k))
                && all_blank(s.close_bytes().skip(k + 1)),
{
    let lead = match s.top_directive() {
        Some(d) => if d.closing_on_new_line {
            indentation(s.indent, 1)
        } else {
            Seq::empty()
        },
        None => Seq::empty(),
    };
    let root: Seq<u8> = if s.closes_document() {
        seq![NEWLINE]
    } else {
        Seq::empty()
    };
    let k = (lead + root).len() as int;
    assert(s.close_bytes()[k] == CLOSE);
    assert(all_blank(s.close_bytes().take(k)));
    assert(all_blank(s.close_bytes().skip(k + 1)));
}

/// A child is never written against what precedes it: where no space goes
/// before a list, the list starts with a line break.
pub proof fn lemma_children_are_set_apart(s: Printer, value: Tree)
    requires
        value is List,
        s.element_bytes(value).len() == 0,
    ensures
        s.open_bytes(opened_name(Some(value->List_0[0])))[0] == NEWLINE,
{
    let ele = opened_name(Some(value->List_0[0]));
    assert(head(value) == Some(ele));
    let d = s.directive(ele)->Some_0;
    assert(d.newline_before >= 1);
    assert(newlines(d.newline_before as int)[0] == NEWLINE);
}

} // verus!
