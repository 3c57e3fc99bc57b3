//! Micro-scraping of the broker concentration pages: one left-to-right scan
//! that finds every table cell whose opening tag carries the fixed marker —
//! the `t3n1` style class together with a column span of four — and collects
//! the text run that immediately follows each such tag.
//!
//! Tag and attribute names are matched case-insensitively; attribute values
//! may be double-quoted, single-quoted or unquoted; the first occurrence of
//! an attribute wins. A marker cell whose opening tag is followed by markup
//! rather than text contributes nothing.

use vstd::prelude::*;
use crate::chars::chars_eq_str;
use crate::numeric::is_space_char;
use crate::numeric::is_space;

verus! {

/// Where the scanner stands.
#[derive(Debug, Clone, Copy, PartialEq, Eq, Structural)]
pub enum HtmlMode {
    /// In text between tags.
    Outside,
    /// Just after `<`.
    TagStart,
    /// Inside a tag name.
    TagName,
    /// Inside a construct that is skipped up to the next `>`.
    TagSkip,
    /// Inside a tag, before an attribute name.
    AttrReady,
    /// Inside an attribute name.
    AttrName,
    /// Just after `=`.
    AttrValueStart,
    /// Inside a quoted attribute value; the payload is the quote character.
    AttrValueQ(char),
    /// Inside an unquoted attribute value.
    AttrValueU,
}

/// The whole scanner state.
pub struct HtmlState {
    pub mode: HtmlMode,
    pub tag_name: Seq<char>,
    pub is_td: bool,
    pub class_v: Option<Seq<char>>,
    pub colspan_v: Option<Seq<char>>,
    pub attr_name: Seq<char>,
    pub attr_val: Seq<char>,
    pub cap: Option<Seq<char>>,
    pub cells: Seq<Seq<char>>,
}

/// An ASCII letter.
pub open spec fn is_letter_char(c: char) -> bool {
    65 <= c as int <= 90 || 97 <= c as int <= 122
}

/// An ASCII letter or digit.
pub open spec fn is_alnum_char(c: char) -> bool {
    is_letter_char(c) || 48 <= c as int <= 57
}

/// The ASCII lower-case image of a character.
pub open spec fn lower_char(c: char) -> char {
    if 65 <= c as int <= 90 {
        ((c as int + 32) as u8) as char
    } else {
        c
    }
}

/// The class attribute value contains the marker style class as a
/// whitespace-separated token.
pub open spec fn has_class_token(cv: Seq<char>) -> bool {
    exists|i: int|
        0 <= i && i + 4 <= cv.len() && #[trigger] cv.subrange(i, i + 4) == "t3n1"@ && (i == 0
            || is_space_char(cv[i - 1])) && (i + 4 == cv.len() || is_space_char(cv[i + 4]))
}

/// The collected attributes single this cell out as a four-column aggregate
/// cell.
pub open spec fn marker_matches(class_v: Option<Seq<char>>, colspan_v: Option<Seq<char>>) -> bool {
    &&& class_v matches Some(cv) && has_class_token(cv)
    &&& colspan_v == Some("4"@)
}

/// The scanner before any input.
pub open spec fn html_init() -> HtmlState {
    HtmlState {
        mode: HtmlMode::Outside,
        tag_name: Seq::empty(),
        is_td: false,
        class_v: None,
        colspan_v: None,
        attr_name: Seq::empty(),
        attr_val: Seq::empty(),
        cap: None,
        cells: Seq::empty(),
    }
}

/// Files the pending attribute under its name; the first occurrence of a
/// name wins.
pub open spec fn record_attr(st: HtmlState) -> HtmlState {
    HtmlState {
        class_v: if st.attr_name == "class"@ && st.class_v is None {
            Some(st.attr_val)
        } else {
            st.class_v
        },
        colspan_v: if st.attr_name == "colspan"@ && st.colspan_v is None {
            Some(st.attr_val)
        } else {
            st.colspan_v
        },
        attr_name: Seq::empty(),
        attr_val: Seq::empty(),
        ..st
    }
}

/// Closes the current tag; capture begins when the marker matched.
pub open spec fn finish_tag(st: HtmlState) -> HtmlState {
    HtmlState {
        mode: HtmlMode::Outside,
        cap: if st.is_td && marker_matches(st.class_v, st.colspan_v) {
            Some(Seq::empty())
        } else {
            None
        },
        ..st
    }
}

/// One scanner transition.
pub open spec fn html_step(st: HtmlState, c: char) -> HtmlState {
    match st.mode {
        HtmlMode::Outside => if c == '<' {
            HtmlState {
                mode: HtmlMode::TagStart,
                tag_name: Seq::empty(),
                is_td: false,
                class_v: None,
                colspan_v: None,
                attr_name: Seq::empty(),
                attr_val: Seq::empty(),
                cap: None,
                cells: match st.cap {
                    Some(acc) => if acc.len() > 0 {
                        st.cells.push(acc)
                    } else {
                        st.cells
                    },
                    None => st.cells,
                },
            }
        } else {
            match st.cap {
                Some(acc) => HtmlState { cap: Some(acc.push(c)), ..st },
                None => st,
            }
        },
        HtmlMode::TagStart => if is_letter_char(c) {
            HtmlState { mode: HtmlMode::TagName, tag_name: seq![lower_char(c)], ..st }
        } else if c == '/' || c == '!' || c == '?' {
            HtmlState { mode: HtmlMode::TagSkip, ..st }
        } else {
            HtmlState { mode: HtmlMode::Outside, ..st }
        },
        HtmlMode::TagName => if is_alnum_char(c) {
            HtmlState { tag_name: st.tag_name.push(lower_char(c)), ..st }
        } else if c == '>' {
            finish_tag(HtmlState { is_td: st.tag_name == "td"@, ..st })
        } else if is_space_char(c) || c == '/' {
            HtmlState { mode: HtmlMode::AttrReady, is_td: st.tag_name == "td"@, ..st }
        } else {
            HtmlState { mode: HtmlMode::TagSkip, ..st }
        },
        HtmlMode::TagSkip => if c == '>' {
            HtmlState { mode: HtmlMode::Outside, ..st }
        } else {
            st
        },
        HtmlMode::AttrReady => if c == '>' {
            finish_tag(st)
        } else if is_space_char(c) || c == '/' || c == '=' || c == '"' || c == '\'' {
            st
        } else {
            HtmlState {
                mode: HtmlMode::AttrName,
                attr_name: seq![lower_char(c)],
                attr_val: Seq::empty(),
                ..st
            }
        },
        HtmlMode::AttrName => if c == '=' {
            HtmlState { mode: HtmlMode::AttrValueStart, ..st }
        } else if c == '>' {
            finish_tag(record_attr(st))
        } else if is_space_char(c) || c == '/' {
            HtmlState { mode: HtmlMode::AttrReady, ..record_attr(st) }
        } else {
            HtmlState { attr_name: st.attr_name.push(lower_char(c)), ..st }
        },
        HtmlMode::AttrValueStart => if c == '"' || c == '\'' {
            HtmlState { mode: HtmlMode::AttrValueQ(c), ..st }
        } else if c == '>' {
            finish_tag(record_attr(st))
        } else if is_space_char(c) {
            HtmlState { mode: HtmlMode::AttrReady, ..record_attr(st) }
        } else {
            HtmlState { mode: HtmlMode::AttrValueU, attr_val: seq![c], ..st }
        },
        HtmlMode::AttrValueQ(q) => if c == q {
            HtmlState { mode: HtmlMode::AttrReady, ..record_attr(st) }
        } else {
            HtmlState { attr_val: st.attr_val.push(c), ..st }
        },
        HtmlMode::AttrValueU => if c == '>' {
            finish_tag(record_attr(st))
        } else if is_space_char(c) {
            HtmlState { mode: HtmlMode::AttrReady, ..record_attr(st) }
        } else {
            HtmlState { attr_val: st.attr_val.push(c), ..st }
        },
    }
}

/// The scanner state after consuming all of `s`.
pub open spec fn html_scan(s: Seq<char>) -> HtmlState
    decreases s.len(),
{
    if s.len() == 0 {
        html_init()
    } else {
        html_step(html_scan(s.drop_last()), s.last())
    }
}

/// Flushes a capture still open at end of input.
pub open spec fn html_finish(st: HtmlState) -> Seq<Seq<char>> {
    match st.cap {
        Some(acc) => if acc.len() > 0 {
            st.cells.push(acc)
        } else {
            st.cells
        },
        None => st.cells,
    }
}

/// The texts of the marker cells of document `s`, in document order.
pub open spec fn html_cells(s: Seq<char>) -> Seq<Seq<char>> {
    html_finish(html_scan(s))
}

/// Runtime check for [`is_letter_char`].
fn is_letter(c: char) -> (r: bool)
    ensures
        r == is_letter_char(c),
{
    let u = c as u32;
    (65 <= u && u <= 90) || (97 <= u && u <= 122)
}

/// Runtime check for [`is_alnum_char`].
fn is_alnum(c: char) -> (r: bool)
    ensures
        r == is_alnum_char(c),
{
    let u = c as u32;
    (65 <= u && u <= 90) || (97 <= u && u <= 122) || (48 <= u && u <= 57)
}

/// Runtime counterpart of [`lower_char`].
fn lower(c: char) -> (r: char)
    ensures
        r == lower_char(c),
{
    let u = c as u32;
    if 65 <= u && u <= 90 {
        ((c as u8) + 32) as char
    } else {
        c
    }
}

/// Runtime check for [`has_class_token`].
fn class_has_token(cv: &Vec<char>) -> (r: bool)
    ensures
        r == has_class_token(cv@),
{
    let n = cv.len();
    if n < 4 {
        return false;
    }
    let last = n - 4;
    let mut i: usize = 0;
    while i <= last
        invariant
            4 <= n == cv@.len(),
            last == n - 4,
            i <= last + 1,
            forall|j: int|
                0 <= j < i ==> !(#[trigger] cv@.subrange(j, j + 4) == "t3n1"@ && (j == 0
                    || is_space_char(cv@[j - 1])) && (j + 4 == cv@.len() || is_space_char(
                    cv@[j + 4],
                ))),
        decreases last + 1 - i,
    {
        let sub = crate::chars::subvec(cv, i, i + 4);
        let word_ok = chars_eq_str(&sub, "t3n1");
        let left_ok = i == 0 || is_space(cv[i - 1]);
        let right_ok = i + 4 == n || is_space(cv[i + 4]);
        if word_ok && left_ok && right_ok {
            return true;
        }
        i += 1;
    }
    false
}

/// Collects the texts of the marker cells of an HTML document, in document
/// order.
pub fn collect_marker_cells(content: &Vec<char>) -> (r: Vec<Vec<char>>)
    ensures
        r.deep_view() == html_cells(content@),
{
    let mut mode = HtmlMode::Outside;
    let mut tag_name: Vec<char> = Vec::new();
    let mut is_td: bool = false;
    let mut class_v: Option<Vec<char>> = None;
    let mut colspan_v: Option<Vec<char>> = None;
    let mut attr_name: Vec<char> = Vec::new();
    let mut attr_val: Vec<char> = Vec::new();
    let mut cap: Option<Vec<char>> = None;
    let mut cells: Vec<Vec<char>> = Vec::new();
    let mut i: usize = 0;
    proof {
        assert(cells.deep_view() =~~= html_init().cells);
        assert(content@.take(0) =~= Seq::<char>::empty());
    }
    while i < content.len()
        invariant
            i <= content@.len(),
            mode == html_scan(content@.take(i as int)).mode,
            tag_name@ == html_scan(content@.take(i as int)).tag_name,
            is_td == html_scan(content@.take(i as int)).is_td,
            (match (class_v, html_scan(content@.take(i as int)).class_v) {
                (Some(a), Some(b)) => a@ == b,
                (None, None) => true,
                _ => false,
            }),
            (match (colspan_v, html_scan(content@.take(i as int)).colspan_v) {
                (Some(a), Some(b)) => a@ == b,
                (None, None) => true,
                _ => false,
            }),
            attr_name@ == html_scan(content@.take(i as int)).attr_name,
            attr_val@ == html_scan(content@.take(i as int)).attr_val,
            (match (cap, html_scan(content@.take(i as int)).cap) {
                (Some(a), Some(b)) => a@ == b,
                (None, None) => true,
                _ => false,
            }),
            cells.deep_view() == html_scan(content@.take(i as int)).cells,
        decreases content@.len() - i,
    {
        proof {
            assert(content@.take(i + 1 as int).drop_last() =~= content@.take(i as int));
            assert(content@.take(i + 1 as int).last() == content@[i as int]);
            reveal_strlit("class");
            reveal_strlit("colspan");
            assert("class"@.len() != "colspan"@.len());
        }
        let ghost st = html_scan(content@.take(i as int));
        let ghost st2 = html_scan(content@.take(i + 1 as int));
        proof {
            assert(st2 == html_step(st, content@[i as int]));
        }
        let c = content[i];
        match mode {
            HtmlMode::Outside => {
                if c == '<' {
                    let capv = cap;
                    cap = None;
                    match capv {
                        Some(acc) => {
                            if acc.len() > 0 {
                                cells.push(acc);
                                proof {
                                    assert(cells.deep_view() =~~= st.cells.push(
                                        st.cap->Some_0,
                                    ));
                                }
                            }
                        },
                        None => {},
                    }
                    tag_name = Vec::new();
                    is_td = false;
                    class_v = None;
                    colspan_v = None;
                    attr_name = Vec::new();
                    attr_val = Vec::new();
                    mode = HtmlMode::TagStart;
                } else {
                    cap = match cap {
                        Some(mut acc) => {
                            acc.push(c);
                            Some(acc)
                        },
                        None => None,
                    };
                }
            },
            HtmlMode::TagStart => {
                if is_letter(c) {
                    tag_name = Vec::new();
                    tag_name.push(lower(c));
                    mode = HtmlMode::TagName;
                    proof {
                        assert(tag_name@ =~= seq![lower_char(content@[i as int])]);
                    }
                } else if c == '/' || c == '!' || c == '?' {
                    mode = HtmlMode::TagSkip;
                } else {
                    mode = HtmlMode::Outside;
                }
            },
            HtmlMode::TagName => {
                if is_alnum(c) {
                    tag_name.push(lower(c));
                } else if c == '>' {
                    is_td = chars_eq_str(&tag_name, "td");
                    let matched = is_td && (match &class_v {
                        Some(cv) => class_has_token(cv),
                        None => false,
                    }) && (match &colspan_v {
                        Some(x) => chars_eq_str(x, "4"),
                        None => false,
                    });
                    cap = if matched {
                        Some(Vec::new())
                    } else {
                        None
                    };
                    mode = HtmlMode::Outside;
                } else if is_space(c) || c == '/' {
                    is_td = chars_eq_str(&tag_name, "td");
                    mode = HtmlMode::AttrReady;
                } else {
                    mode = HtmlMode::TagSkip;
                }
            },
            HtmlMode::TagSkip => {
                if c == '>' {
                    mode = HtmlMode::Outside;
                }
            },
            HtmlMode::AttrReady => {
                if c == '>' {
                    let matched = is_td && (match &class_v {
                        Some(cv) => class_has_token(cv),
                        None => false,
                    }) && (match &colspan_v {
                        Some(x) => chars_eq_str(x, "4"),
                        None => false,
                    });
                    cap = if matched {
                        Some(Vec::new())
                    } else {
                        None
                    };
                    mode = HtmlMode::Outside;
                } else if is_space(c) || c == '/' || c == '=' || c == '"' || c == '\'' {
                    // stay
                } else {
                    attr_name = Vec::new();
                    attr_name.push(lower(c));
                    attr_val = Vec::new();
                    mode = HtmlMode::AttrName;
                    proof {
                        assert(attr_name@ =~= seq![lower_char(content@[i as int])]);
                    }
                }
            },
            HtmlMode::AttrName => {
                if c == '=' {
                    mode = HtmlMode::AttrValueStart;
                } else if c == '>' {
                    let an_is_class = chars_eq_str(&attr_name, "class");
                    let an_is_colspan = chars_eq_str(&attr_name, "colspan");
                    let av = attr_val;
                    attr_val = Vec::new();
                    attr_name = Vec::new();
                    if an_is_class && class_v.is_none() {
                        class_v = Some(av);
                    } else if an_is_colspan && colspan_v.is_none() {
                        colspan_v = Some(av);
                    }
                    let matched = is_td && (match &class_v {
                        Some(cv) => class_has_token(cv),
                        None => false,
                    }) && (match &colspan_v {
                        Some(x) => chars_eq_str(x, "4"),
                        None => false,
                    });
                    cap = if matched {
                        Some(Vec::new())
                    } else {
                        None
                    };
                    mode = HtmlMode::Outside;
                } else if is_space(c) || c == '/' {
                    let an_is_class = chars_eq_str(&attr_name, "class");
                    let an_is_colspan = chars_eq_str(&attr_name, "colspan");
                    let av = attr_val;
                    attr_val = Vec::new();
                    attr_name = Vec::new();
                    if an_is_class && class_v.is_none() {
                        class_v = Some(av);
                    } else if an_is_colspan && colspan_v.is_none() {
                        colspan_v = Some(av);
                    }
                    mode = HtmlMode::AttrReady;
                } else {
                    attr_name.push(lower(c));
                }
            },
            HtmlMode::AttrValueStart => {
                if c == '"' || c == '\'' {
                    mode = HtmlMode::AttrValueQ(c);
                } else if c == '>' {
                    let an_is_class = chars_eq_str(&attr_name, "class");
                    let an_is_colspan = chars_eq_str(&attr_name, "colspan");
                    let av = attr_val;
                    attr_val = Vec::new();
                    attr_name = Vec::new();
                    if an_is_class && class_v.is_none() {
                        class_v = Some(av);
                    } else if an_is_colspan && colspan_v.is_none() {
                        colspan_v = Some(av);
                    }
                    let matched = is_td && (match &class_v {
                        Some(cv) => class_has_token(cv),
                        None => false,
                    }) && (match &colspan_v {
                        Some(x) => chars_eq_str(x, "4"),
                        None => false,
                    });
                    cap = if matched {
                        Some(Vec::new())
                    } else {
                        None
                    };
                    mode = HtmlMode::Outside;
                } else if is_space(c) {
                    let an_is_class = chars_eq_str(&attr_name, "class");
                    let an_is_colspan = chars_eq_str(&attr_name, "colspan");
                    let av = attr_val;
                    attr_val = Vec::new();
                    attr_name = Vec::new();
                    if an_is_class && class_v.is_none() {
                        class_v = Some(av);
                    } else if an_is_colspan && colspan_v.is_none() {
                        colspan_v = Some(av);
                    }
                    mode = HtmlMode::AttrReady;
                } else {
                    attr_val = Vec::new();
                    attr_val.push(c);
                    mode = HtmlMode::AttrValueU;
                    proof {
                        assert(attr_val@ =~= seq![content@[i as int]]);
                    }
                }
            },
            HtmlMode::AttrValueQ(q) => {
                if c == q {
                    let an_is_class = chars_eq_str(&attr_name, "class");
                    let an_is_colspan = chars_eq_str(&attr_name, "colspan");
                    let av = attr_val;
                    attr_val = Vec::new();
                    attr_name = Vec::new();
                    if an_is_class && class_v.is_none() {
                        class_v = Some(av);
                    } else if an_is_colspan && colspan_v.is_none() {
                        colspan_v = Some(av);
                    }
                    mode = HtmlMode::AttrReady;
                } else {
                    attr_val.push(c);
                }
            },
            HtmlMode::AttrValueU => {
                if c == '>' {
                    let an_is_class = chars_eq_str(&attr_name, "class");
                    let an_is_colspan = chars_eq_str(&attr_name, "colspan");
                    let av = attr_val;
                    attr_val = Vec::new();
                    attr_name = Vec::new();
                    if an_is_class && class_v.is_none() {
                        class_v = Some(av);
                    } else if an_is_colspan && colspan_v.is_none() {
                        colspan_v = Some(av);
                    }
                    let matched = is_td && (match &class_v {
                        Some(cv) => class_has_token(cv),
                        None => false,
                    }) && (match &colspan_v {
                        Some(x) => chars_eq_str(x, "4"),
                        None => false,
                    });
                    cap = if matched {
                        Some(Vec::new())
                    } else {
                        None
                    };
                    mode = HtmlMode::Outside;
                } else if is_space(c) {
                    let an_is_class = chars_eq_str(&attr_name, "class");
                    let an_is_colspan = chars_eq_str(&attr_name, "colspan");
                    let av = attr_val;
                    attr_val = Vec::new();
                    attr_name = Vec::new();
                    if an_is_class && class_v.is_none() {
                        class_v = Some(av);
                    } else if an_is_colspan && colspan_v.is_none() {
                        colspan_v = Some(av);
                    }
                    mode = HtmlMode::AttrReady;
                } else {
                    attr_val.push(c);
                }
            },
        }
        i += 1;
    }
    proof {
        assert(content@.take(content@.len() as int) =~= content@);
    }
    let ghost stf = html_scan(content@);
    let capv = cap;
    match capv {
        Some(acc) => {
            if acc.len() > 0 {
                cells.push(acc);
                proof {
                    assert(cells.deep_view() =~~= stf.cells.push(stf.cap->Some_0));
                }
            }
        },
        None => {},
    }
    cells
}

} // verus!
