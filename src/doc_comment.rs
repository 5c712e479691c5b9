//! Rewriting the documentation of a wrapped item for the generated JavaScript
//! bindings: the examples are cut off, method references are camel-cased and
//! every line becomes a `///` comment line.
use vstd::prelude::*;
use crate::naming::{camel_case, to_camel_case};
use crate::order::texts;
use crate::text::{find_from, find_str, occurs_at, push_char, trim, trim_str};

verus! {

/// The heading after which a documentation text is cut off.
pub open spec fn example_heading() -> Seq<char> {
    seq!['#', ' ', 'E', 'x', 'a', 'm', 'p', 'l', 'e']
}

/// The text before the first example heading (or all of it), trimmed.
pub open spec fn omit_example(s: Seq<char>) -> Seq<char> {
    match find_from(s, example_heading(), 0) {
        Some(i) => trim(s.subrange(0, i)),
        None => trim(s),
    }
}

/// The pieces of `s` between its line feeds: one more than there are line
/// feeds.
pub open spec fn nl_pieces(s: Seq<char>) -> Seq<Seq<char>>
    decreases s.len(),
{
    if s.len() == 0 {
        seq![Seq::empty()]
    } else {
        let p = nl_pieces(s.drop_last());
        if s.last() == '\n' {
            p.push(Seq::empty())
        } else {
            p.update(p.len() - 1, p.last().push(s.last()))
        }
    }
}

/// A line without the carriage return that ended it.
pub open spec fn strip_cr(l: Seq<char>) -> Seq<char> {
    if l.len() > 0 && l.last() == '\r' {
        l.drop_last()
    } else {
        l
    }
}

/// The lines of `s` as `str::lines` gives them: split at `\n` or `\r\n`, with
/// no empty line after a final line ending.
pub open spec fn lines_of(s: Seq<char>) -> Seq<Seq<char>> {
    let p = nl_pieces(s);
    let ended = p.drop_last().map_values(|l: Seq<char>| strip_cr(l));
    if p.last().len() == 0 {
        ended
    } else {
        ended.push(p.last())
    }
}

/// The lines `ls` joined with a line feed between each two.
pub open spec fn join_lines(ls: Seq<Seq<char>>) -> Seq<char>
    decreases ls.len(),
{
    if ls.len() == 0 {
        Seq::empty()
    } else if ls.len() == 1 {
        ls[0]
    } else {
        join_lines(ls.drop_last()) + seq!['\n'] + ls.last()
    }
}

pub open spec fn doc_prefix() -> Seq<char> {
    seq!['/', '/', '/', ' ']
}

/// One line of a doc comment: the marker and the trimmed line.
pub open spec fn doc_line(l: Seq<char>) -> Seq<char> {
    doc_prefix() + trim(l)
}

/// Every line of `s` trimmed and marked as a doc comment line.
pub open spec fn doc_marked(s: Seq<char>) -> Seq<char> {
    join_lines(lines_of(s).map_values(|l: Seq<char>| doc_line(l)))
}

proof fn lemma_find_from_occurs(s: Seq<char>, p: Seq<char>, k: int)
    ensures
        find_from(s, p, k) matches Some(i) ==> occurs_at(s, p, i) && k <= i,
    decreases s.len() + 1 - k,
{
    if !(k < 0 || k + p.len() > s.len()) && !occurs_at(s, p, k) {
        lemma_find_from_occurs(s, p, k + 1);
    }
}

proof fn lemma_join_push(ls: Seq<Seq<char>>, x: Seq<char>)
    ensures
        join_lines(ls.push(x)) == if ls.len() == 0 {
            x
        } else {
            join_lines(ls) + seq!['\n'] + x
        },
{
    assert(ls.push(x).drop_last() =~= ls);
}

/// Cuts `s` off at the first example heading and trims what is left.
pub fn omit_after_example(s: &str) -> (r: &str)
    ensures
        r@ == omit_example(s@),
{
    let heading = "# Example";
    proof {
        reveal_strlit("# Example");
        assert(heading@ =~= example_heading());
        lemma_find_from_occurs(s@, heading@, 0);
    }
    match find_str(s, heading) {
        Some(pos) => trim_str(s.substring_char(0, pos)),
        None => trim_str(s),
    }
}

/// `l` without the carriage return that ends it.
fn strip_cr_str(l: &str) -> (r: &str)
    ensures
        r@ == strip_cr(l@),
{
    let n = l.unicode_len();
    if n > 0 && l.get_char(n - 1) == '\r' {
        l.substring_char(0, n - 1)
    } else {
        assert(l@.subrange(0, n as int) =~= l@);
        l.substring_char(0, n)
    }
}

/// Appends the doc comment line of `line` to `out`, after a line feed unless
/// `first`.
fn push_doc_line(out: &mut String, line: &str, first: bool)
    ensures
        final(out)@ == if first {
            old(out)@ + doc_line(line@)
        } else {
            old(out)@ + seq!['\n'] + doc_line(line@)
        },
{
    if !first {
        push_char(out, '\n');
    }
    let prefix = "/// ";
    proof {
        reveal_strlit("/// ");
        assert(prefix@ =~= doc_prefix());
    }
    out.append(prefix);
    out.append(trim_str(line));
    assert(final(out)@ =~= (if first {
        old(out)@ + doc_line(line@)
    } else {
        old(out)@ + seq!['\n'] + doc_line(line@)
    }));
}

/// Adds the doc comment marker `/// ` to the start of each trimmed line.
pub fn add_doc_comment_marker(s: &str) -> (r: String)
    ensures
        r@ == doc_marked(s@),
{
    let n = s.unicode_len();
    let mut out = String::new();
    let mut cur = String::new();
    let mut first = true;
    let ghost done: Seq<Seq<char>> = Seq::empty();
    let ghost f = |l: Seq<char>| doc_line(strip_cr(l));
    let mut i: usize = 0;
    assert(s@.subrange(0, 0) =~= Seq::<char>::empty());
    assert(done.push(cur@) =~= seq![Seq::<char>::empty()]);
    while i < n
        invariant
            n == s@.len(),
            i <= n,
            f == (|l: Seq<char>| doc_line(strip_cr(l))),
            nl_pieces(s@.subrange(0, i as int)) == done.push(cur@),
            out@ == join_lines(done.map_values(f)),
            first == (done.len() == 0),
        decreases n - i,
    {
        let c = s.get_char(i);
        let ghost prev = s@.subrange(0, i as int);
        assert(s@.subrange(0, i + 1).drop_last() =~= prev);
        proof {
            lemma_join_push(done.map_values(f), f(cur@));
        }
        if c == '\n' {
            push_doc_line(&mut out, strip_cr_str(cur.as_str()), first);
            proof {
                assert(done.push(cur@).map_values(f) =~= done.map_values(f).push(f(cur@)));
                done = done.push(cur@);
            }
            cur = String::new();
            first = false;
            assert(nl_pieces(s@.subrange(0, i + 1)) =~= done.push(cur@));
        } else {
            push_char(&mut cur, c);
            assert(nl_pieces(s@.subrange(0, i + 1)) =~= done.push(cur@));
        }
        i = i + 1;
    }
    assert(s@.subrange(0, n as int) =~= s@);
    let ghost p = done.push(cur@);
    assert(p.drop_last() =~= done);
    assert(done.map_values(|l: Seq<char>| strip_cr(l)).map_values(|l: Seq<char>| doc_line(l))
        =~= done.map_values(f));
    if cur.as_str().unicode_len() > 0 {
        proof {
            lemma_join_push(done.map_values(f), doc_line(cur@));
            assert(done.map_values(|l: Seq<char>| strip_cr(l)).push(cur@).map_values(
                |l: Seq<char>| doc_line(l),
            ) =~= done.map_values(f).push(doc_line(cur@)));
        }
        push_doc_line(&mut out, cur.as_str(), first);
    }
    out
}

/// The pattern of a method reference in square brackets, such as
/// ``[`Format::set_italic()`]``: the type, the method name and the argument
/// list are its three groups.
pub const METHOD_REF_PATTERN: &'static str = r"\[\`([^`]+)::([\w_]+)(\([^)]*\))\`\]";

/// Whether `regex::Regex::new` accepts `pattern`.
pub uninterp spec fn regex_accepts(pattern: Seq<char>) -> bool;

/// The pieces of `haystack` between the matches of `pattern`, as
/// `regex::Regex::split` yields them.
pub uninterp spec fn regex_split_of(pattern: Seq<char>, haystack: Seq<char>) -> Seq<Seq<char>>;

/// The groups of each match of `pattern` in `haystack`, group 0 first, as
/// `regex::Regex::captures_iter` yields them.
pub uninterp spec fn regex_captures_of(pattern: Seq<char>, haystack: Seq<char>) -> Seq<
    Seq<Option<Seq<char>>>,
>;

pub open spec fn groups_view(v: Seq<Vec<Option<String>>>) -> Seq<Seq<Option<Seq<char>>>> {
    v.map_values(
        |row: Vec<Option<String>>|
            row@.map_values(
                |g: Option<String>|
                    match g {
                        Some(x) => Some(x@),
                        None => None,
                    },
            ),
    )
}

/// Relies on `regex::Regex::new` to compile `pattern` and on
/// `regex::Regex::split` for the text between its matches.
#[verifier::external_body]
fn regex_split(pattern: &str, haystack: &str) -> (r: Option<Vec<String>>)
    ensures
        r is Some <==> regex_accepts(pattern@),
        r matches Some(v) ==> texts(v@) == regex_split_of(pattern@, haystack@),
{
    regex::Regex::new(pattern).ok().map(|re| re.split(haystack).map(|x| x.to_string()).collect())
}

/// Relies on `regex::Regex::new` to compile `pattern` and on
/// `regex::Regex::captures_iter` for the groups of its matches.
#[verifier::external_body]
fn regex_captures(pattern: &str, haystack: &str) -> (r: Option<Vec<Vec<Option<String>>>>)
    ensures
        r is Some <==> regex_accepts(pattern@),
        r matches Some(v) ==> groups_view(v@) == regex_captures_of(pattern@, haystack@),
{
    regex::Regex::new(pattern).ok().map(
        |re|
            re.captures_iter(haystack).map(
                |c| c.iter().map(|g| g.map(|m| m.as_str().to_string())).collect(),
            ).collect(),
    )
}

/// The text of group `k` of a match, empty where the group did not take part.
pub open spec fn group_text(row: Seq<Option<Seq<char>>>, k: int) -> Seq<char> {
    if 0 <= k < row.len() && row[k] is Some {
        row[k]->0
    } else {
        Seq::empty()
    }
}

/// The method reference of a match with its method name in camelCase.
pub open spec fn camel_ref(row: Seq<Option<Seq<char>>>) -> Seq<char> {
    seq!['[', '`'] + group_text(row, 1) + seq![':', ':'] + camel_case(group_text(row, 2))
        + group_text(row, 3) + seq!['`', ']']
}

/// The `i`-th text between matches followed by the `i`-th rewritten match.
pub open spec fn ref_piece(
    gaps: Seq<Seq<char>>,
    rows: Seq<Seq<Option<Seq<char>>>>,
    i: int,
) -> Seq<char> {
    (if i < gaps.len() {
        gaps[i]
    } else {
        Seq::empty()
    }) + (if i < rows.len() {
        camel_ref(rows[i])
    } else {
        Seq::empty()
    })
}

pub open spec fn ref_pieces_upto(
    gaps: Seq<Seq<char>>,
    rows: Seq<Seq<Option<Seq<char>>>>,
    k: nat,
) -> Seq<char>
    decreases k,
{
    if k == 0 {
        Seq::empty()
    } else {
        ref_pieces_upto(gaps, rows, (k - 1) as nat) + ref_piece(gaps, rows, k - 1)
    }
}

/// The texts between matches and the rewritten matches, in turn.
pub open spec fn camel_refs_text(gaps: Seq<Seq<char>>, rows: Seq<Seq<Option<Seq<char>>>>) -> Seq<
    char,
> {
    let k = if gaps.len() >= rows.len() {
        gaps.len()
    } else {
        rows.len()
    };
    ref_pieces_upto(gaps, rows, k)
}

/// `s` with the method name of each method reference in camelCase.
pub open spec fn camel_method_refs(s: Seq<char>) -> Seq<char> {
    if regex_accepts(METHOD_REF_PATTERN@) {
        camel_refs_text(
            regex_split_of(METHOD_REF_PATTERN@, s),
            regex_captures_of(METHOD_REF_PATTERN@, s),
        )
    } else {
        s
    }
}

/// What `process_doc_comment` makes of a documentation text.
pub open spec fn processed_doc(s: Seq<char>) -> Seq<char> {
    doc_marked(camel_method_refs(omit_example(s)))
}

fn group_str(row: &Vec<Option<String>>, k: usize) -> (r: &str)
    ensures
        r@ == group_text(row@.map_values(
            |g: Option<String>|
                match g {
                    Some(x) => Some(x@),
                    None => None,
                },
        ), k as int),
{
    proof {
        reveal_strlit("");
    }
    if k < row.len() {
        match &row[k] {
            Some(x) => x.as_str(),
            None => "",
        }
    } else {
        ""
    }
}

/// Joins the texts between the matches of a method reference (`gaps`) and
/// the matches themselves (`captures`, the groups of each), with each
/// method name turned to camelCase.
pub fn camel_case_method_refs(gaps: &Vec<String>, captures: &Vec<Vec<Option<String>>>) -> (r:
    String)
    ensures
        r@ == camel_refs_text(texts(gaps@), groups_view(captures@)),
{
    let ghost g = texts(gaps@);
    let ghost rows = groups_view(captures@);
    let k = if gaps.len() >= captures.len() {
        gaps.len()
    } else {
        captures.len()
    };
    let open_ref = "[`";
    let sep = "::";
    let close_ref = "`]";
    proof {
        reveal_strlit("[`");
        reveal_strlit("::");
        reveal_strlit("`]");
    }
    let mut out = String::new();
    let mut i: usize = 0;
    while i < k
        invariant
            i <= k,
            k == (if g.len() >= rows.len() { g.len() } else { rows.len() }),
            g == texts(gaps@),
            rows == groups_view(captures@),
            open_ref@ == seq!['[', '`'],
            sep@ == seq![':', ':'],
            close_ref@ == seq!['`', ']'],
            out@ == ref_pieces_upto(g, rows, i as nat),
        decreases k - i,
    {
        let ghost before = out@;
        if i < gaps.len() {
            out.append(gaps[i].as_str());
        }
        let ghost mid = out@;
        if i < captures.len() {
            let row = &captures[i];
            out.append(open_ref);
            out.append(group_str(row, 1));
            out.append(sep);
            let method = to_camel_case(group_str(row, 2));
            out.append(method.as_str());
            out.append(group_str(row, 3));
            out.append(close_ref);
            assert(out@ =~= mid + camel_ref(rows[i as int]));
        }
        assert(out@ =~= before + ref_piece(g, rows, i as int));
        i = i + 1;
    }
    out
}

/// Turns the method name in each method reference of `s` to camelCase, so
/// that ``[`Format::set_italic()`]`` becomes ``[`Format::setItalic()`]``.
pub fn convert_bracket_methods_to_camel_case(s: &str) -> (r: String)
    ensures
        r@ == camel_method_refs(s@),
{
    let gaps = regex_split(METHOD_REF_PATTERN, s);
    let captures = regex_captures(METHOD_REF_PATTERN, s);
    match (gaps, captures) {
        (Some(g), Some(c)) => camel_case_method_refs(&g, &c),
        _ => s.to_string(),
    }
}

/// Prepares a documentation text for the generated bindings: it is cut off
/// before its examples, its method references are camel-cased and each line
/// is marked as a doc comment line.
pub fn process_doc_comment(s: &str) -> (r: String)
    ensures
        r@ == processed_doc(s@),
{
    let trimmed = omit_after_example(s);
    let camel_cased = convert_bracket_methods_to_camel_case(trimmed);
    add_doc_comment_marker(camel_cased.as_str())
}

} // verus!
