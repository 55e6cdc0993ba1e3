//! The formatter core: events, field renderers, the key-value collector and
//! the line assembler.
//!
//! Every field renderer has an exact unstyled text, given by a spec function,
//! and returns either that text or that text wrapped in the field's escape
//! codes ([`opt_applied`]). With styling off, the whole rendered line equals
//! [`line_text`] exactly; with styling on, [`line_ok`] pins the line down to
//! the choice each styling call makes.

use vstd::prelude::*;

use crate::color::Color;
use crate::color::Colors;
use crate::color::color_applied;
use crate::color::default_colors;
use crate::color::spec_level_color;
use crate::level::Level;
use crate::level::level_text;
use crate::opts::Opts;
use crate::text::dec_str;
use crate::text::u32_to_string;
use owo_colors::Stream;

verus! {

/// One log event: severity, target, pre-formatted message, optional caller
/// location, and ordered key-value attributes. Created by the caller,
/// rendered once, never stored.
#[derive(Clone, Debug)]
pub struct Event {
    /// Severity level of the event.
    pub level: Level,
    /// Target (module) name.
    pub target: String,
    /// Pre-formatted message text; the sink never re-interprets it.
    pub message: String,
    /// Source file of the logging call, when known.
    pub file: Option<String>,
    /// Source line of the logging call, when known.
    pub line: Option<u32>,
    /// Ordered key-value attributes, each value already stringified.
    pub attrs: Vec<(String, String)>,
}

/// Accumulates the structured attributes of a single event, in attachment
/// order, with no deduplication and no sorting.
pub struct KvCollector {
    /// The pairs collected so far, oldest first.
    pub pairs: Vec<(String, String)>,
}

/// The views of a pair sequence's keys and values.
pub open spec fn attrs_view(attrs: Seq<(String, String)>) -> Seq<(Seq<char>, Seq<char>)> {
    attrs.map_values(|p: (String, String)| (p.0@, p.1@))
}

impl KvCollector {
    /// An empty collector.
    pub fn new() -> (r: KvCollector)
        ensures
            r.pairs@.len() == 0,
    {
        KvCollector { pairs: Vec::new() }
    }

    /// Attach one pair after everything collected so far.
    pub fn visit(&mut self, key: &str, value: &str)
        ensures
            attrs_view(final(self).pairs@) == attrs_view(old(self).pairs@).push((key@, value@)),
    {
        self.pairs.push((key.to_owned(), value.to_owned()));
        proof {
            assert(attrs_view(self.pairs@) =~= attrs_view(old(self).pairs@).push((key@, value@)));
        }
    }
}

// ---------------------------------------------------------------------------
// Resolution of the optional configuration fields.
// ---------------------------------------------------------------------------

/// The separator put before a non-empty attribute tail.
pub open spec fn sep_text(o: Opts) -> Seq<char> {
    match o.separator {
        Some(s) => s@,
        None => ": "@,
    }
}

/// The marker put between the target and the message.
pub open spec fn marker_text(o: Opts) -> Seq<char> {
    match o.marker {
        Some(s) => s@,
        None => "\u{25b6}"@,
    }
}

/// The palette in force: the configured one, or the customary one.
pub open spec fn palette(o: Opts) -> Colors {
    match o.colors {
        Some(c) => c,
        None => default_colors(),
    }
}

/// The view of an event's caller file name, when known.
pub open spec fn file_view(e: Event) -> Option<Seq<char>> {
    match e.file {
        Some(s) => Some(s@),
        None => None,
    }
}

// ---------------------------------------------------------------------------
// The exact, unstyled text of each field and of the whole line.
// ---------------------------------------------------------------------------

/// `n` spaces.
pub open spec fn spaces(n: nat) -> Seq<char>
    decreases n,
{
    if n == 0 {
        Seq::<char>::empty()
    } else {
        spaces((n - 1) as nat) + seq![' ']
    }
}

/// `s` padded with spaces to `width`: unchanged when already that long,
/// spaces on the left when `left`, else on the right.
pub open spec fn padded(s: Seq<char>, width: nat, left: bool) -> Seq<char> {
    if s.len() >= width {
        s
    } else if left {
        spaces((width - s.len()) as nat) + s
    } else {
        s + spaces((width - s.len()) as nat)
    }
}

/// The level field's text: the canonical level text, padded when padding is
/// enabled.
pub open spec fn level_block(o: Opts, l: Level) -> Seq<char> {
    if o.pad_level {
        padded(level_text(l), o.pad_width as nat, o.pad_left)
    } else {
        level_text(l)
    }
}

/// An optional text, `"??"` when absent.
pub open spec fn opt_str_text(x: Option<Seq<char>>) -> Seq<char> {
    match x {
        Some(s) => s,
        None => "??"@,
    }
}

/// An optional line number in decimal, `"??"` when absent.
pub open spec fn opt_u32_text(x: Option<u32>) -> Seq<char> {
    match x {
        Some(v) => dec_str(v as nat),
        None => "??"@,
    }
}

/// The caller field's text: `<file>:<line>`, with `"??"` for whichever part
/// is unavailable.
pub open spec fn caller_text(f: Option<Seq<char>>, l: Option<u32>) -> Seq<char> {
    opt_str_text(f) + ":"@ + opt_u32_text(l)
}

/// One attribute pair's text: `key={value}`.
pub open spec fn kv_pair_text(p: (Seq<char>, Seq<char>)) -> Seq<char> {
    p.0 + "="@ + "{"@ + p.1 + "}"@
}

/// The attribute pairs' texts joined with `", "`, in order.
pub open spec fn kv_list_text(ps: Seq<(Seq<char>, Seq<char>)>) -> Seq<char>
    decreases ps.len(),
{
    if ps.len() == 0 {
        Seq::<char>::empty()
    } else if ps.len() == 1 {
        kv_pair_text(ps[0])
    } else {
        kv_pair_text(ps[0]) + ", "@ + kv_list_text(ps.skip(1))
    }
}

/// The whole attribute tail: empty for no attributes, else the separator
/// followed by the joined pairs.
pub open spec fn attr_tail_text(ps: Seq<(Seq<char>, Seq<char>)>, sep: Seq<char>) -> Seq<char> {
    if ps.len() == 0 {
        Seq::<char>::empty()
    } else {
        sep + kv_list_text(ps)
    }
}

/// The caller block inside the brackets: `<file>:<line> ` when caller
/// reporting is on, empty otherwise.
pub open spec fn caller_block(o: Opts, e: Event) -> Seq<char> {
    if o.report_caller {
        caller_text(file_view(e), e.line) + " "@
    } else {
        Seq::<char>::empty()
    }
}

/// The exact unstyled line:
/// `<timestamp> <level> [<caller> <target>] <marker> <message><attr-tail>`,
/// with the caller block present exactly when caller reporting is on.
pub open spec fn line_text(o: Opts, ts: Seq<char>, e: Event) -> Seq<char> {
    ts + " "@ + level_block(o, e.level) + " ["@ + caller_block(o, e) + e.target@ + "] "@
        + marker_text(o) + " "@ + e.message@ + attr_tail_text(attrs_view(e.attrs@), sep_text(o))
}

// ---------------------------------------------------------------------------
// The styled-or-plain relation of each field and of the whole line.
// ---------------------------------------------------------------------------

/// The color behind an optional reference.
pub open spec fn opt_deref(c: Option<&Color>) -> Option<Color> {
    match c {
        Some(x) => Some(*x),
        None => None,
    }
}

/// What rendering text `s` under color slot `c` may give: `s` unchanged when
/// styling is off or the slot is unset, else whatever applying the color may
/// give (the text unchanged, or between that color's escape codes).
pub open spec fn opt_applied(c: Option<Color>, on: bool, s: Seq<char>, r: Seq<char>) -> bool {
    if on && c is Some {
        color_applied(c->0, s, r)
    } else {
        r == s
    }
}

/// Leaving a text unstyled always satisfies [`opt_applied`].
pub proof fn lemma_opt_applied_plain(c: Option<Color>, on: bool, s: Seq<char>)
    ensures
        opt_applied(c, on, s, s),
{
    if on && c is Some {
        assert(crate::color::fg_applied(c->0.fg, s, s));
        assert(crate::color::bg_applied(c->0.bg, s, s));
    }
}

/// What rendering one attribute pair may give: the key under the key slot,
/// `=`, then the brace-wrapped value under the value slot.
pub open spec fn kv_pair_ok(
    key_c: Option<Color>,
    val_c: Option<Color>,
    on: bool,
    p: (Seq<char>, Seq<char>),
    r: Seq<char>,
) -> bool {
    exists|rk: Seq<char>, rv: Seq<char>|
        #![trigger opt_applied(key_c, on, p.0, rk), opt_applied(val_c, on, "{"@ + p.1 + "}"@, rv)]
        opt_applied(key_c, on, p.0, rk) && opt_applied(val_c, on, "{"@ + p.1 + "}"@, rv) && r == rk
            + "="@ + rv
}

/// Fragment texts joined with `", "`, in order.
pub open spec fn join_texts(frs: Seq<Seq<char>>) -> Seq<char>
    decreases frs.len(),
{
    if frs.len() == 0 {
        Seq::<char>::empty()
    } else if frs.len() == 1 {
        frs[0]
    } else {
        frs[0] + ", "@ + join_texts(frs.skip(1))
    }
}

/// `frs` renders the pairs `ps` one by one, in order.
pub open spec fn kv_frags_ok(
    key_c: Option<Color>,
    val_c: Option<Color>,
    on: bool,
    ps: Seq<(Seq<char>, Seq<char>)>,
    frs: Seq<Seq<char>>,
) -> bool {
    frs.len() == ps.len() && (forall|j: int|
        0 <= j < ps.len() ==> kv_pair_ok(key_c, val_c, on, ps[j], #[trigger] frs[j]))
}

/// What rendering the attribute pairs may give: each pair rendered under the
/// two slots, in order, joined with `", "`.
pub open spec fn kv_list_ok(
    key_c: Option<Color>,
    val_c: Option<Color>,
    on: bool,
    ps: Seq<(Seq<char>, Seq<char>)>,
    r: Seq<char>,
) -> bool {
    exists|frs: Seq<Seq<char>>| #[trigger]
        kv_frags_ok(key_c, val_c, on, ps, frs) && r == join_texts(frs)
}

/// What rendering the whole attribute tail may give: empty for no
/// attributes, else the (unstyled) separator followed by the joined pairs.
pub open spec fn attr_tail_ok(
    key_c: Option<Color>,
    val_c: Option<Color>,
    on: bool,
    sep: Seq<char>,
    ps: Seq<(Seq<char>, Seq<char>)>,
    r: Seq<char>,
) -> bool {
    if ps.len() == 0 {
        r == Seq::<char>::empty()
    } else {
        exists|rl: Seq<char>| #[trigger]
            kv_list_ok(key_c, val_c, on, ps, rl) && r == sep + rl
    }
}

/// The rendered fragments a line is assembled from.
pub struct LineFragments {
    pub ts: Seq<char>,
    pub level: Seq<char>,
    pub caller_file: Seq<char>,
    pub caller_line: Seq<char>,
    pub target: Seq<char>,
    pub marker: Seq<char>,
    pub message: Seq<char>,
    pub tail: Seq<char>,
}

/// Each fragment is its field's exact text rendered under that field's
/// palette slot.
pub open spec fn fragments_ok(o: Opts, ts: Seq<char>, e: Event, fr: LineFragments) -> bool {
    let pal = palette(o);
    let on = o.coloured;
    &&& opt_applied(pal.timestamp, on, ts, fr.ts)
    &&& opt_applied(spec_level_color(pal, e.level), on, level_block(o, e.level), fr.level)
    &&& opt_applied(pal.caller_file, on, opt_str_text(file_view(e)), fr.caller_file)
    &&& opt_applied(pal.caller_line, on, opt_u32_text(e.line), fr.caller_line)
    &&& opt_applied(pal.target, on, e.target@, fr.target)
    &&& opt_applied(pal.arrow, on, marker_text(o), fr.marker)
    &&& opt_applied(pal.message, on, e.message@, fr.message)
    &&& attr_tail_ok(pal.attr_key, pal.attr_value, on, sep_text(o), attrs_view(e.attrs@), fr.tail)
}

/// The line assembled from rendered fragments, in the fixed field order,
/// with the caller block present exactly when caller reporting is on.
pub open spec fn assemble_fragments(o: Opts, fr: LineFragments) -> Seq<char> {
    fr.ts + " "@ + fr.level + " ["@ + (if o.report_caller {
        fr.caller_file + ":"@ + fr.caller_line + " "@
    } else {
        Seq::<char>::empty()
    }) + fr.target + "] "@ + fr.marker + " "@ + fr.message + fr.tail
}

/// What rendering a whole line may give: some choice of per-field fragments,
/// assembled in the fixed order.
pub open spec fn line_ok(o: Opts, ts: Seq<char>, e: Event, r: Seq<char>) -> bool {
    exists|fr: LineFragments| #[trigger]
        fragments_ok(o, ts, e, fr) && r == assemble_fragments(o, fr)
}

// ---------------------------------------------------------------------------
// Executable renderers.
// ---------------------------------------------------------------------------

/// An optional text, `"??"` when absent.
pub fn get_opt_str(x: Option<&str>) -> (r: String)
    ensures
        r@ == opt_str_text(match x {
            Some(s) => Some(s@),
            None => None,
        }),
{
    match x {
        None => "??".to_owned(),
        Some(s) => s.to_owned(),
    }
}

/// An optional line number in decimal, `"??"` when absent.
pub fn get_opt_u32(x: Option<u32>) -> (r: String)
    ensures
        r@ == opt_u32_text(x),
{
    match x {
        None => "??".to_owned(),
        Some(v) => u32_to_string(v),
    }
}

/// Pad `text` with spaces to `width`; spaces go on the left when `left`,
/// else on the right; a text already `width` long is returned unchanged.
pub fn pad_text(text: &str, width: usize, left: bool) -> (r: String)
    ensures
        r@ == padded(text@, width as nat, left),
{
    let n = text.unicode_len();
    if n >= width {
        return text.to_owned();
    }
    let mut fill = String::new();
    let mut i: usize = n;
    while i < width
        invariant
            n <= i <= width,
            fill@ == spaces((i - n) as nat),
        decreases width - i,
    {
        proof {
            reveal_strlit(" ");
        }
        fill.append(" ");
        i += 1;
    }
    if left {
        fill.concat(text)
    } else {
        let mut r = text.to_owned();
        r.append(fill.as_str());
        r
    }
}

/// Render a text under an optional color slot: unchanged when styling is off
/// or the slot is unset, else colored by the slot.
pub fn apply_opt(c: Option<&Color>, on: bool, text: &str, stream: Stream) -> (r: String)
    ensures
        opt_applied(opt_deref(c), on, text@, r@),
{
    if !on {
        text.to_owned()
    } else {
        match c {
            Some(col) => col.apply(text, stream),
            None => text.to_owned(),
        }
    }
}

/// Render the attribute pairs from index `i` on, joined with `", "`.
fn render_kv_from(
    attrs: &Vec<(String, String)>,
    i: usize,
    key_c: Option<&Color>,
    val_c: Option<&Color>,
    on: bool,
    stream: Stream,
) -> (r: String)
    requires
        i < attrs@.len(),
    ensures
        kv_list_ok(opt_deref(key_c), opt_deref(val_c), on, attrs_view(attrs@).skip(i as int), r@),
        !on ==> r@ == kv_list_text(attrs_view(attrs@).skip(i as int)),
    decreases attrs@.len() - i,
{
    let pair: &(String, String) = &attrs[i];
    let mut braced = "{".to_owned();
    braced.append(pair.1.as_str());
    braced.append("}");
    let rk = apply_opt(key_c, on, pair.0.as_str(), stream);
    let rv = apply_opt(val_c, on, braced.as_str(), stream);
    let ghost ps = attrs_view(attrs@).skip(i as int);
    let ghost kc = opt_deref(key_c);
    let ghost vc = opt_deref(val_c);
    proof {
        assert(ps[0] == (attrs@[i as int].0@, attrs@[i as int].1@));
        assert(braced@ =~= "{"@ + ps[0].1 + "}"@);
        assert(opt_applied(kc, on, ps[0].0, rk@));
        assert(opt_applied(vc, on, "{"@ + ps[0].1 + "}"@, rv@));
    }
    let mut s = rk;
    s.append("=");
    s.append(rv.as_str());
    let ghost pair_text = s@;
    proof {
        assert(pair_text =~= rk@ + "="@ + rv@);
        assert(kv_pair_ok(kc, vc, on, ps[0], pair_text));
        if !on {
            assert(pair_text =~= kv_pair_text(ps[0]));
        }
    }
    if i == attrs.len() - 1 {
        proof {
            assert(ps.len() == 1);
            let frs = seq![pair_text];
            assert(frs[0] == pair_text);
            assert(kv_frags_ok(kc, vc, on, ps, frs));
            assert(join_texts(frs) == pair_text);
        }
        s
    } else {
        s.append(", ");
        let rest = render_kv_from(attrs, i + 1, key_c, val_c, on, stream);
        s.append(rest.as_str());
        proof {
            assert(attrs_view(attrs@).skip(i as int + 1) =~= ps.skip(1));
            assert(kv_list_ok(kc, vc, on, ps.skip(1), rest@));
            assert(s@ =~= pair_text + ", "@ + rest@);
            let rest_frs = choose|frs: Seq<Seq<char>>|
                #[trigger] kv_frags_ok(kc, vc, on, ps.skip(1), frs) && rest@ == join_texts(frs);
            let frs = seq![pair_text] + rest_frs;
            assert(frs[0] == pair_text);
            assert(frs.skip(1) =~= rest_frs);
            assert forall|j: int| 0 <= j < ps.len() implies kv_pair_ok(
                kc,
                vc,
                on,
                ps[j],
                #[trigger] frs[j],
            ) by {
                if j == 0 {
                    assert(kv_pair_ok(kc, vc, on, ps[0], pair_text));
                } else {
                    assert(kv_pair_ok(kc, vc, on, ps.skip(1)[j - 1], rest_frs[j - 1]));
                    assert(ps.skip(1)[j - 1] == ps[j]);
                }
            }
            assert(kv_frags_ok(kc, vc, on, ps, frs));
            assert(join_texts(frs) == pair_text + ", "@ + join_texts(frs.skip(1)));
            assert(s@ == join_texts(frs));
            if !on {
                assert(s@ =~= kv_pair_text(ps[0]) + ", "@ + kv_list_text(ps.skip(1)));
            }
        }
        s
    }
}

/// Render the whole attribute tail: empty for no attributes, else the
/// separator followed by the pairs in attachment order, never deduplicated
/// and never reordered.
pub fn render_attr_tail(
    attrs: &Vec<(String, String)>,
    sep: &str,
    key_c: Option<&Color>,
    val_c: Option<&Color>,
    on: bool,
    stream: Stream,
) -> (r: String)
    ensures
        attr_tail_ok(opt_deref(key_c), opt_deref(val_c), on, sep@, attrs_view(attrs@), r@),
        !on ==> r@ == attr_tail_text(attrs_view(attrs@), sep@),
{
    if attrs.len() == 0 {
        String::new()
    } else {
        let list = render_kv_from(attrs, 0, key_c, val_c, on, stream);
        let mut s = sep.to_owned();
        s.append(list.as_str());
        proof {
            assert(attrs_view(attrs@).skip(0) =~= attrs_view(attrs@));
            assert(kv_list_ok(opt_deref(key_c), opt_deref(val_c), on, attrs_view(attrs@), list@));
            assert(s@ =~= sep@ + list@);
        }
        s
    }
}

/// Render one event into one line, from an already formatted timestamp.
/// With styling off the result is exactly [`line_text`]; in general it is
/// [`line_ok`]: the fixed field order with each field rendered under its
/// palette slot.
pub fn render_line(o: &Opts, ts: &str, e: &Event, stream: Stream) -> (r: String)
    ensures
        line_ok(*o, ts@, *e, r@),
        !o.coloured ==> r@ == line_text(*o, ts@, *e),
{
    let dflt = Colors::default();
    let pal: &Colors = match &o.colors {
        Some(c) => c,
        None => &dflt,
    };
    let sep: &str = match &o.separator {
        Some(s) => s.as_str(),
        None => ": ",
    };
    let marker: &str = match &o.marker {
        Some(s) => s.as_str(),
        None => "\u{25b6}",
    };
    let on = o.coloured;
    proof {
        assert(*pal == palette(*o));
        assert(sep@ == sep_text(*o));
        assert(marker@ == marker_text(*o));
    }

    let ts_r = apply_opt(pal.timestamp.as_ref(), on, ts, stream);

    let lvl_plain = if o.pad_level {
        pad_text(e.level.as_str(), o.pad_width as usize, o.pad_left)
    } else {
        e.level.as_str().to_owned()
    };
    let lvl_r = apply_opt(pal.level_color(e.level), on, lvl_plain.as_str(), stream);

    let tgt_r = apply_opt(pal.target.as_ref(), on, e.target.as_str(), stream);
    let mk_r = apply_opt(pal.arrow.as_ref(), on, marker, stream);
    let msg_r = apply_opt(pal.message.as_ref(), on, e.message.as_str(), stream);
    let tail_r = render_attr_tail(
        &e.attrs,
        sep,
        pal.attr_key.as_ref(),
        pal.attr_value.as_ref(),
        on,
        stream,
    );

    let mut s = ts_r;
    s.append(" ");
    s.append(lvl_r.as_str());
    s.append(" [");

    let ghost mut fl_frag = opt_str_text(file_view(*e));
    let ghost mut ln_frag = opt_u32_text(e.line);
    if o.report_caller {
        let fl_plain = get_opt_str(
            match &e.file {
                Some(f) => Some(f.as_str()),
                None => None,
            },
        );
        let ln_plain = get_opt_u32(e.line);
        let fl_r = apply_opt(pal.caller_file.as_ref(), on, fl_plain.as_str(), stream);
        let ln_r = apply_opt(pal.caller_line.as_ref(), on, ln_plain.as_str(), stream);
        proof {
            fl_frag = fl_r@;
            ln_frag = ln_r@;
        }
        s.append(fl_r.as_str());
        s.append(":");
        s.append(ln_r.as_str());
        s.append(" ");
    } else {
        proof {
            lemma_opt_applied_plain(palette(*o).caller_file, on, fl_frag);
            lemma_opt_applied_plain(palette(*o).caller_line, on, ln_frag);
        }
    }

    s.append(tgt_r.as_str());
    s.append("] ");
    s.append(mk_r.as_str());
    s.append(" ");
    s.append(msg_r.as_str());
    s.append(tail_r.as_str());

    proof {
        let fr = LineFragments {
            ts: ts_r@,
            level: lvl_r@,
            caller_file: fl_frag,
            caller_line: ln_frag,
            target: tgt_r@,
            marker: mk_r@,
            message: msg_r@,
            tail: tail_r@,
        };
        assert(lvl_plain@ == level_block(*o, e.level));
        assert(fragments_ok(*o, ts@, *e, fr));
        assert(s@ =~= assemble_fragments(*o, fr));
        if !o.coloured {
            assert(s@ =~= line_text(*o, ts@, *e));
        }
    }
    s
}

// ---------------------------------------------------------------------------
// Laws of the renderers.
// ---------------------------------------------------------------------------

/// Padding adds exactly the missing spaces: the padded text is `width` long
/// when the text is shorter, and the text itself otherwise.
pub proof fn lemma_padded_len(s: Seq<char>, width: nat, left: bool)
    ensures
        padded(s, width, left).len() == if s.len() >= width {
            s.len()
        } else {
            width
        },
{
    if s.len() < width {
        lemma_spaces_len((width - s.len()) as nat);
    }
}

/// `n` spaces are `n` characters long.
pub proof fn lemma_spaces_len(n: nat)
    ensures
        spaces(n).len() == n,
    decreases n,
{
    if n > 0 {
        lemma_spaces_len((n - 1) as nat);
    }
}

/// Attaching one more pair appends exactly that pair's text after everything
/// already rendered: attachment order is kept and a duplicate key changes
/// nothing about the pairs before it.
pub proof fn lemma_kv_append(ps: Seq<(Seq<char>, Seq<char>)>, p: (Seq<char>, Seq<char>))
    ensures
        kv_list_text(ps.push(p)) == if ps.len() == 0 {
            kv_pair_text(p)
        } else {
            kv_list_text(ps) + ", "@ + kv_list_text(seq![p])
        },
    decreases ps.len(),
{
    if ps.len() == 0 {
        assert(ps.push(p)[0] == p);
        assert(kv_list_text(ps.push(p)) == kv_pair_text(p));
    } else {
        assert(ps.push(p).skip(1) =~= ps.skip(1).push(p));
        lemma_kv_append(ps.skip(1), p);
        if ps.len() == 1 {
            assert(ps.skip(1).len() == 0);
            assert(kv_list_text(ps.push(p)) == kv_pair_text(ps[0]) + ", "@ + kv_list_text(
                ps.skip(1).push(p),
            ));
            assert(kv_list_text(seq![p]) == kv_pair_text(p)) by {
                assert(seq![p][0] == p);
            }
            assert(kv_list_text(ps) == kv_pair_text(ps[0]));
        } else {
            assert(kv_list_text(ps.push(p)) == kv_pair_text(ps[0]) + ", "@ + kv_list_text(
                ps.skip(1).push(p),
            ));
            assert(kv_list_text(ps.skip(1).push(p)) == kv_list_text(ps.skip(1)) + ", "@
                + kv_list_text(seq![p]));
            assert((kv_pair_text(ps[0]) + ", "@ + (kv_list_text(ps.skip(1)) + ", "@ + kv_list_text(
                seq![p],
            ))) =~= ((kv_pair_text(ps[0]) + ", "@ + kv_list_text(ps.skip(1))) + ", "@
                + kv_list_text(seq![p])));
        }
    }
}

} // verus!
