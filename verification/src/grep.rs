//! Searching a text for the lines that contain a query, with a choice of
//! case-sensitive and case-insensitive matching.
use vstd::prelude::*;
use vstd::string::StrSliceExecFns;

verus! {

/// The views of a vector of owned lines.
pub open spec fn views_of(lines: Seq<String>) -> Seq<Seq<char>> {
    lines.map_values(|l: String| l@)
}

/// A line's content: the line itself, unless it ends in a carriage return
/// that came before the splitting newline, which is dropped.
pub open spec fn strip_cr(l: Seq<char>) -> Seq<char> {
    if l.len() > 0 && l.last() == '\r' {
        l.drop_last()
    } else {
        l
    }
}

/// The lines of a text: split at every newline or carriage-return-newline
/// pair, with no extra empty line after a final newline.
pub open spec fn lines_spec(s: Seq<char>) -> Seq<Seq<char>>
    decreases s.len(),
{
    if s.len() == 0 {
        Seq::empty()
    } else if s[0] == '\n' {
        seq![Seq::<char>::empty()].add(lines_spec(s.drop_first()))
    } else if s.len() >= 2 && s[0] == '\r' && s[1] == '\n' {
        seq![Seq::<char>::empty()].add(lines_spec(s.subrange(2, s.len() as int)))
    } else {
        let rest = lines_spec(s.drop_first());
        if rest.len() == 0 {
            seq![seq![s[0]]]
        } else {
            seq![seq![s[0]].add(rest[0])].add(rest.drop_first())
        }
    }
}

/// A non-empty text has at least one line.
proof fn lemma_lines_nonempty(s: Seq<char>)
    requires
        s.len() > 0,
    ensures
        lines_spec(s).len() >= 1,
{
}

/// Splitting a text that ends at a line break, followed by more text,
/// yields the lines of both parts one after the other.
proof fn lemma_lines_concat(a: Seq<char>, b: Seq<char>)
    requires
        a.len() == 0 || a.last() == '\n',
    ensures
        lines_spec(a + b) =~~= lines_spec(a) + lines_spec(b),
    decreases a.len(),
{
    if a.len() == 0 {
        assert(a + b =~= b);
        assert(lines_spec(a) + lines_spec(b) =~~= lines_spec(b));
    } else if a[0] == '\n' {
        assert((a + b)[0] == '\n');
        assert((a + b).drop_first() =~= a.drop_first() + b);
        lemma_lines_concat(a.drop_first(), b);
        assert(lines_spec(a + b) =~~= seq![Seq::<char>::empty()].add(
            lines_spec(a.drop_first()) + lines_spec(b),
        ));
        assert(seq![Seq::<char>::empty()].add(lines_spec(a.drop_first()) + lines_spec(b)) =~~= (
        seq![Seq::<char>::empty()].add(lines_spec(a.drop_first()))) + lines_spec(b));
    } else if a.len() >= 2 && a[0] == '\r' && a[1] == '\n' {
        assert((a + b)[0] == '\r' && (a + b)[1] == '\n' && (a + b).len() >= 2);
        assert((a + b).subrange(2, (a + b).len() as int) =~= a.subrange(2, a.len() as int) + b);
        lemma_lines_concat(a.subrange(2, a.len() as int), b);
        assert(lines_spec(a + b) =~~= seq![Seq::<char>::empty()].add(
            lines_spec(a.subrange(2, a.len() as int)) + lines_spec(b),
        ));
        assert(seq![Seq::<char>::empty()].add(
            lines_spec(a.subrange(2, a.len() as int)) + lines_spec(b),
        ) =~~= (seq![Seq::<char>::empty()].add(lines_spec(a.subrange(2, a.len() as int))))
            + lines_spec(b));
    } else {
        assert(a.len() >= 2);
        assert((a + b)[0] == a[0] && (a + b)[0] != '\n');
        assert(!((a + b).len() >= 2 && (a + b)[0] == '\r' && (a + b)[1] == '\n')) by {
            assert((a + b)[1] == a[1]);
        }
        assert((a + b).drop_first() =~= a.drop_first() + b);
        lemma_lines_concat(a.drop_first(), b);
        lemma_lines_nonempty(a.drop_first());
        let ra = lines_spec(a.drop_first());
        let rab = lines_spec((a + b).drop_first());
        assert(rab =~~= ra + lines_spec(b));
        assert(rab[0] == ra[0]);
        assert(rab.len() > 0);
        assert(rab.drop_first() =~~= ra.drop_first() + lines_spec(b));
        assert(lines_spec(a + b) =~~= seq![seq![a[0]].add(ra[0])].add(
            ra.drop_first() + lines_spec(b),
        ));
        assert(lines_spec(a) + lines_spec(b) =~~= seq![seq![a[0]].add(ra[0])].add(
            ra.drop_first() + lines_spec(b),
        ));
    }
}

/// A chunk that ends with its only newline is one line: its content with
/// a carriage return before the newline dropped.
proof fn lemma_lines_chunk(t: Seq<char>)
    requires
        t.len() > 0,
        t.last() == '\n',
        forall|j: int| 0 <= j < t.len() - 1 ==> t[j] != '\n',
    ensures
        lines_spec(t) =~~= seq![strip_cr(t.drop_last())],
    decreases t.len(),
{
    if t.len() == 1 {
        reveal_with_fuel(lines_spec, 2);
        assert(t[0] == '\n');
        assert(t.drop_first().len() == 0);
        assert(strip_cr(t.drop_last()) =~= Seq::<char>::empty());
    } else if t.len() == 2 && t[0] == '\r' {
        reveal_with_fuel(lines_spec, 2);
        assert(t[1] == '\n');
        assert(t.subrange(2, 2).len() == 0);
        assert(strip_cr(t.drop_last()) =~= Seq::<char>::empty());
    } else {
        assert(t[0] != '\n');
        assert(!(t.len() >= 2 && t[0] == '\r' && t[1] == '\n'));
        let d = t.drop_first();
        assert(d.last() == t.last());
        assert(forall|j: int| 0 <= j < d.len() - 1 ==> d[j] == t[j + 1]);
        lemma_lines_chunk(d);
        lemma_lines_nonempty(d);
        assert(lines_spec(t) =~~= seq![seq![t[0]].add(lines_spec(d)[0])]);
        assert(lines_spec(d)[0] =~= strip_cr(d.drop_last()));
        assert(d.drop_last() =~= t.drop_last().drop_first());
        let l = t.drop_last();
        assert(l.len() > 0 && l[0] == t[0]);
        if l.len() >= 2 && l.last() == '\r' {
            assert(strip_cr(l) =~= l.drop_last());
            assert(l.drop_first().last() == l.last());
            assert(strip_cr(l.drop_first()) =~= l.drop_first().drop_last());
            assert(seq![t[0]].add(l.drop_first().drop_last()) =~= l.drop_last());
        } else if l.len() == 1 {
            assert(l[0] != '\r');
            assert(strip_cr(l) =~= l);
            assert(strip_cr(l.drop_first()) =~= l.drop_first());
            assert(seq![t[0]].add(l.drop_first()) =~= l);
        } else {
            assert(strip_cr(l) =~= l);
            assert(l.drop_first().last() == l.last());
            assert(strip_cr(l.drop_first()) =~= l.drop_first());
            assert(seq![t[0]].add(l.drop_first()) =~= l);
        }
    }
}

/// A non-empty chunk without a newline is one line: itself.
proof fn lemma_lines_no_newline(t: Seq<char>)
    requires
        t.len() > 0,
        forall|j: int| 0 <= j < t.len() ==> t[j] != '\n',
    ensures
        lines_spec(t) =~~= seq![t],
    decreases t.len(),
{
    reveal_with_fuel(lines_spec, 2);
    if t.len() == 1 {
        assert(seq![t[0]] =~= t);
    } else {
        assert(t[0] != '\n' && t[1] != '\n');
        let d = t.drop_first();
        assert(forall|j: int| 0 <= j < d.len() ==> d[j] == t[j + 1]);
        lemma_lines_no_newline(d);
        lemma_lines_nonempty(d);
        assert(lines_spec(t) =~~= seq![seq![t[0]].add(d)]);
        assert(seq![t[0]].add(d) =~= t);
    }
}

/// Splits the text into its lines, as owned strings.
pub fn split_lines(contents: &str) -> (r: Vec<String>)
    ensures
        views_of(r@) =~~= lines_spec(contents@),
{
    let n = contents.unicode_len();
    let mut r: Vec<String> = Vec::new();
    let mut start: usize = 0;
    let mut i: usize = 0;
    proof {
        assert(contents@.subrange(0, 0).len() == 0);
        assert(views_of(r@) =~~= lines_spec(contents@.subrange(0, 0)));
    }
    while i < n
        invariant
            0 <= start <= i <= n,
            n == contents@.len(),
            views_of(r@) =~~= lines_spec(contents@.subrange(0, start as int)),
            start > 0 ==> contents@[start - 1] == '\n',
            forall|j: int| start <= j < i ==> contents@[j] != '\n',
        decreases n - i,
    {
        if contents.get_char(i) == '\n' {
            let e: usize = if i > start && contents.get_char(i - 1) == '\r' {
                i - 1
            } else {
                i
            };
            let line = contents.substring_char(start, e).to_owned();
            proof {
                let whole = contents@;
                let head = whole.subrange(0, start as int);
                let chunk = whole.subrange(start as int, i + 1);
                assert(chunk.len() > 0 && chunk.last() == '\n');
                assert(forall|j: int| 0 <= j < chunk.len() - 1 ==> chunk[j] != '\n');
                lemma_lines_chunk(chunk);
                assert(chunk.drop_last() =~= whole.subrange(start as int, i as int));
                assert(strip_cr(chunk.drop_last()) =~= whole.subrange(start as int, e as int));
                assert(head + chunk =~= whole.subrange(0, i + 1));
                lemma_lines_concat(head, chunk);
                assert(lines_spec(whole.subrange(0, i + 1)) =~~= lines_spec(head).push(
                    line@,
                ));
                assert(views_of(r@.push(line)) =~~= views_of(r@).push(line@));
            }
            r.push(line);
            start = i + 1;
        }
        i += 1;
    }
    if start < n {
        let line = contents.substring_char(start, n).to_owned();
        proof {
            let whole = contents@;
            let head = whole.subrange(0, start as int);
            let tail = whole.subrange(start as int, n as int);
            assert(tail.len() > 0);
            assert(forall|j: int| 0 <= j < tail.len() ==> tail[j] != '\n');
            lemma_lines_no_newline(tail);
            assert(head + tail =~= whole);
            lemma_lines_concat(head, tail);
            assert(lines_spec(whole) =~~= lines_spec(head).push(line@));
            assert(views_of(r@.push(line)) =~~= views_of(r@).push(line@));
        }
        r.push(line);
    } else {
        proof {
            assert(contents@.subrange(0, start as int) =~= contents@);
        }
    }
    r
}

/// Whether the pattern occurs somewhere in the text as a contiguous run.
pub open spec fn is_substring(pat: Seq<char>, text: Seq<char>) -> bool {
    exists|k: int|
        0 <= k <= text.len() - pat.len() && #[trigger] text.subrange(k, k + pat.len()) == pat
}

/// Whether the pattern stands in the text at the given position.
fn matches_at(text: &str, k: usize, pat: &str) -> (b: bool)
    requires
        k + pat@.len() <= text@.len(),
    ensures
        b == (text@.subrange(k as int, k + pat@.len()) == pat@),
{
    let n = text.unicode_len();
    let m = pat.unicode_len();
    let mut j: usize = 0;
    while j < m
        invariant
            0 <= j <= m,
            m == pat@.len(),
            n == text@.len(),
            k + m <= n,
            forall|j2: int| 0 <= j2 < j ==> text@[k + j2] == pat@[j2],
        decreases m - j,
    {
        if text.get_char(k + j) != pat.get_char(j) {
            proof {
                assert(text@.subrange(k as int, k + pat@.len())[j as int] != pat@[j as int]);
            }
            return false;
        }
        j += 1;
    }
    proof {
        assert(text@.subrange(k as int, k + pat@.len()) =~= pat@);
    }
    true
}

/// Whether the text contains the pattern.
fn contains_substring(text: &str, pat: &str) -> (b: bool)
    ensures
        b == is_substring(pat@, text@),
{
    let n = text.unicode_len();
    let m = pat.unicode_len();
    if m > n {
        return false;
    }
    if m == 0 {
        proof {
            assert(text@.subrange(0, 0 + pat@.len() as int) =~= pat@);
        }
        return true;
    }
    let mut k: usize = 0;
    while k <= n - m
        invariant
            0 <= k <= n - m + 1,
            1 <= m <= n,
            n == text@.len(),
            m == pat@.len(),
            forall|k2: int| 0 <= k2 < k ==> #[trigger] text@.subrange(k2, k2 + m) != pat@,
        decreases n - m - k + 1,
    {
        if matches_at(text, k, pat) {
            return true;
        }
        k += 1;
    }
    false
}

/// The lowercase form of a sequence of characters, whatever the language's
/// full case-folding rules make of it.
pub uninterp spec fn lower_of(s: Seq<char>) -> Seq<char>;

/// Relies on str::to_lowercase: the result depends on the characters alone.
#[verifier::external_body]
fn lowercase(s: &str) -> (r: String)
    ensures
        r@ == lower_of(s@),
{
    s.to_lowercase()
}

/// Holds of the lines that contain the query as they stand.
pub open spec fn line_matches(query: Seq<char>) -> spec_fn(Seq<char>) -> bool {
    |line: Seq<char>| is_substring(query, line)
}

/// Holds of the lines that contain the query once both are lowercased.
pub open spec fn line_matches_insensitive(query: Seq<char>) -> spec_fn(Seq<char>) -> bool {
    |line: Seq<char>| is_substring(lower_of(query), lower_of(line))
}

/// The lines of the text that contain the query, case respected, in order.
pub fn search_sensitive(query: &str, contents: &str) -> (r: Vec<String>)
    ensures
        views_of(r@) == lines_spec(contents@).filter(line_matches(query@)),
{
    let lines = split_lines(contents);
    let ghost all = lines_spec(contents@);
    let mut results: Vec<String> = Vec::new();
    let mut i: usize = 0;
    proof {
        reveal(Seq::filter);
        assert(all.take(0).filter(line_matches(query@)) =~= Seq::<Seq<char>>::empty());
    }
    while i < lines.len()
        invariant
            0 <= i <= lines@.len(),
            views_of(lines@) =~~= all,
            views_of(results@) =~~= all.take(i as int).filter(line_matches(query@)),
        decreases lines@.len() - i,
    {
        let line = &lines[i];
        if contains_substring(line.as_str(), query) {
            results.push(line.clone());
        }
        proof {
            reveal(Seq::filter);
            let pred = line_matches(query@);
            let t = all.take(i + 1);
            assert(t.drop_last() =~~= all.take(i as int));
            assert(t.last() == all[i as int]);
            assert(all[i as int] == lines@[i as int]@);
            assert(views_of(results@) =~~= all.take(i + 1).filter(pred));
        }
        i += 1;
    }
    proof {
        assert(all.take(all.len() as int) =~~= all);
    }
    results
}

/// The lines of the text that contain the query with case ignored, in order.
pub fn search_insensitive(query: &str, contents: &str) -> (r: Vec<String>)
    ensures
        views_of(r@) == lines_spec(contents@).filter(line_matches_insensitive(query@)),
{
    let query_low = lowercase(query);
    let lines = split_lines(contents);
    let ghost all = lines_spec(contents@);
    let mut results: Vec<String> = Vec::new();
    let mut i: usize = 0;
    proof {
        reveal(Seq::filter);
        assert(all.take(0).filter(line_matches_insensitive(query@)) =~= Seq::<Seq<char>>::empty());
    }
    while i < lines.len()
        invariant
            0 <= i <= lines@.len(),
            views_of(lines@) =~~= all,
            query_low@ == lower_of(query@),
            views_of(results@) =~~= all.take(i as int).filter(line_matches_insensitive(query@)),
        decreases lines@.len() - i,
    {
        let line = &lines[i];
        let line_low = lowercase(line.as_str());
        if contains_substring(line_low.as_str(), query_low.as_str()) {
            results.push(line.clone());
        }
        proof {
            reveal(Seq::filter);
            let pred = line_matches_insensitive(query@);
            let t = all.take(i + 1);
            assert(t.drop_last() =~~= all.take(i as int));
            assert(t.last() == all[i as int]);
            assert(all[i as int] == lines@[i as int]@);
            assert(views_of(results@) =~~= all.take(i + 1).filter(pred));
        }
        i += 1;
    }
    proof {
        assert(all.take(all.len() as int) =~~= all);
    }
    results
}

/// How a search is to be run: what to look for, where, and whether case
/// matters.
pub struct Config {
    pub query: String,
    pub filename: String,
    pub case_sensitive: bool,
}

impl Config {
    /// Reads the query and the file name from the argument list, which must
    /// hold at least the program name and those two. Case sensitivity is
    /// decided by the caller's environment and passed in as it is.
    pub fn new(args: &Vec<String>, case_sensitive: bool) -> (r: Result<Config, &'static str>)
        ensures
            args@.len() < 3 ==> (r matches Err(e) && e@ == "Not enough arguments"@),
            args@.len() >= 3 ==> (r matches Ok(c) && c.query == args@[1] && c.filename == args@[2]
                && c.case_sensitive == case_sensitive),
    {
        if args.len() < 3 {
            return Err("Not enough arguments");
        }
        let query = args[1].clone();
        let filename = args[2].clone();
        Ok(Config { query, filename, case_sensitive })
    }
}

/// The matching lines of the text, by whichever search the flag picks.
pub fn search(query: &str, contents: &str, case_sensitive: bool) -> (r: Vec<String>)
    ensures
        case_sensitive ==> views_of(r@) == lines_spec(contents@).filter(line_matches(query@)),
        !case_sensitive ==> views_of(r@) == lines_spec(contents@).filter(
            line_matches_insensitive(query@),
        ),
{
    if case_sensitive {
        search_sensitive(query, contents)
    } else {
        search_insensitive(query, contents)
    }
}

} // verus!
