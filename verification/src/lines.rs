//! Splitting a text into lines while keeping every terminator, so that the
//! split is lossless: joining each line's content with its terminator, in
//! order, rebuilds the original text exactly.
use vstd::prelude::*;

verus! {

/// Index of the first line feed in `s`, or at least `s.len()` if there is
/// none.
pub open spec fn first_lf(s: Seq<char>) -> nat
    decreases s.len(),
{
    if s.len() == 0 {
        0
    } else if s[0] == '\n' {
        0
    } else {
        (1 + first_lf(s.drop_first())) as nat
    }
}

/// `first_lf` points at the first line feed: nothing before it is a line
/// feed, and it is in bounds exactly when `s` holds a line feed at all.
pub proof fn lemma_first_lf(s: Seq<char>)
    ensures
        first_lf(s) <= s.len(),
        forall|j: int| 0 <= j < first_lf(s) ==> s[j] != '\n',
        first_lf(s) < s.len() ==> s[first_lf(s) as int] == '\n',
    decreases s.len(),
{
    if s.len() == 0 {
    } else if s[0] == '\n' {
    } else {
        lemma_first_lf(s.drop_first());
        assert forall|j: int| 0 <= j < first_lf(s) implies s[j] != '\n' by {
            if j > 0 {
                assert(s.drop_first()[j - 1] != '\n');
            }
        }
    }
}

/// A position with no line feed before it, and a line feed (or the end) at
/// it, is `first_lf`.
pub proof fn lemma_first_lf_at(s: Seq<char>, k: int)
    requires
        0 <= k <= s.len(),
        forall|j: int| 0 <= j < k ==> s[j] != '\n',
        k < s.len() ==> s[k] == '\n',
    ensures
        k < s.len() ==> first_lf(s) == k,
        k == s.len() ==> first_lf(s) >= s.len(),
    decreases s.len(),
{
    if s.len() == 0 {
    } else if s[0] == '\n' {
    } else {
        assert(forall|j: int| 0 <= j < k - 1 ==> s.drop_first()[j] != '\n');
        lemma_first_lf_at(s.drop_first(), k - 1);
    }
}

/// Content and terminator of one line whose raw text (up to, not including,
/// a line feed) is `raw`: a trailing carriage return moves into the
/// terminator.
pub open spec fn line_pair(raw: Seq<char>) -> (Seq<char>, Option<Seq<char>>) {
    if raw.len() > 0 && raw.last() == '\r' {
        (raw.drop_last(), Some("\r\n"@))
    } else {
        (raw, Some("\n"@))
    }
}

/// The lines of `s`, each as content paired with the terminator that
/// followed it. Only the final line has no terminator.
pub open spec fn line_split_spec(s: Seq<char>) -> Seq<(Seq<char>, Option<Seq<char>>)>
    decreases s.len(),
{
    let i = first_lf(s) as int;
    if i >= s.len() {
        seq![(s, None::<Seq<char>>)]
    } else {
        seq![line_pair(s.take(i))] + line_split_spec(s.skip(i + 1))
    }
}

/// Joining: each content followed by its terminator (nothing for `None`),
/// in order.
pub open spec fn join_lines(pairs: Seq<(Seq<char>, Option<Seq<char>>)>) -> Seq<char>
    decreases pairs.len(),
{
    if pairs.len() == 0 {
        Seq::empty()
    } else {
        pairs[0].0 + (match pairs[0].1 {
            Some(t) => t,
            None => Seq::<char>::empty(),
        }) + join_lines(pairs.drop_first())
    }
}

/// Splitting is lossless: joining the split of `s` gives back `s` exactly.
pub proof fn lemma_line_split_round_trip(s: Seq<char>)
    ensures
        join_lines(line_split_spec(s)) == s,
    decreases s.len(),
{
    reveal_strlit("\n");
    reveal_strlit("\r\n");
    lemma_first_lf(s);
    let i = first_lf(s) as int;
    if i >= s.len() {
        let pairs = line_split_spec(s);
        assert(pairs.drop_first() =~= Seq::<(Seq<char>, Option<Seq<char>>)>::empty());
        assert(join_lines(pairs.drop_first()) == Seq::<char>::empty());
        assert(join_lines(pairs) =~= s);
    } else {
        let raw = s.take(i);
        let rest = s.skip(i + 1);
        lemma_line_split_round_trip(rest);
        let pairs = line_split_spec(s);
        assert(pairs.drop_first() =~= line_split_spec(rest));
        let (content, term) = line_pair(raw);
        assert(content + term->Some_0 =~= raw + "\n"@);
        assert(join_lines(pairs) =~= raw + "\n"@ + rest);
        assert(join_lines(pairs) =~= s);
    }
}

/// The view of an exec line pair: content and terminator as sequences.
pub open spec fn pair_view(p: (String, Option<String>)) -> (Seq<char>, Option<Seq<char>>) {
    (
        p.0@,
        match p.1 {
            Some(t) => Some(t@),
            None => None,
        },
    )
}

/// Splits `s` into lines on the line-feed character. Each returned pair is a
/// line's content together with the terminator that followed it in `s`:
/// `"\r\n"` when the content before the line feed ended with a carriage
/// return, else `"\n"`, and `None` for the final line, which no line feed
/// followed. Joining content and terminator of every pair, in order,
/// rebuilds `s` exactly.
pub fn line_split(s: &str) -> (result: Vec<(String, Option<String>)>)
    ensures
        result@.map_values(|p: (String, Option<String>)| pair_view(p)) == line_split_spec(s@),
{
    let n = s.unicode_len();
    let mut result: Vec<(String, Option<String>)> = Vec::new();
    let mut start: usize = 0;
    let mut i: usize = 0;
    proof {
        assert(s@.skip(0) =~= s@);
        assert(result@.map_values(|p: (String, Option<String>)| pair_view(p))
            =~= Seq::<(Seq<char>, Option<Seq<char>>)>::empty());
    }
    while i < n
        invariant
            0 <= start <= i <= n,
            n == s@.len(),
            forall|j: int| start <= j < i ==> s@[j] != '\n',
            line_split_spec(s@) =~= result@.map_values(|p: (String, Option<String>)| pair_view(p))
                + line_split_spec(s@.skip(start as int)),
        decreases n - i,
    {
        if s.get_char(i) == '\n' {
            let raw = s.substring_char(start, i);
            let pair = split_raw_line(raw);
            let ghost pre = result@;
            proof {
                let tail = s@.skip(start as int);
                assert(forall|j: int| 0 <= j < i - start ==> tail[j] != '\n');
                lemma_first_lf_at(tail, i as int - start as int);
                assert(tail.take(i as int - start as int) =~= raw@);
                assert(tail.skip(i as int - start as int + 1) =~= s@.skip(i + 1));
                assert(line_split_spec(tail) =~= seq![line_pair(raw@)] + line_split_spec(
                    s@.skip(i + 1),
                ));
            }
            result.push(pair);
            proof {
                assert(result@.map_values(|p: (String, Option<String>)| pair_view(p))
                    =~= pre.map_values(|p: (String, Option<String>)| pair_view(p)).push(
                    pair_view(pair),
                ));
            }
            start = i + 1;
        }
        i += 1;
    }
    let raw = s.substring_char(start, n);
    proof {
        let tail = s@.skip(start as int);
        lemma_first_lf_at(tail, n as int - start as int);
        assert(tail =~= raw@);
        assert(line_split_spec(tail) =~= seq![(raw@, None::<Seq<char>>)]);
    }
    let last: (String, Option<String>) = (raw.to_owned(), None);
    let ghost pre = result@;
    result.push(last);
    proof {
        assert(result@.map_values(|p: (String, Option<String>)| pair_view(p))
            =~= pre.map_values(|p: (String, Option<String>)| pair_view(p)).push(pair_view(last)));
    }
    result
}

/// Turns the raw text of one terminated line (everything up to a line feed)
/// into its content/terminator pair.
fn split_raw_line(raw: &str) -> (pair: (String, Option<String>))
    ensures
        pair_view(pair) == line_pair(raw@),
{
    let len = raw.unicode_len();
    if len > 0 && raw.get_char(len - 1) == '\r' {
        let content = raw.substring_char(0, len - 1);
        proof {
            assert(raw@.subrange(0, raw@.len() - 1) =~= raw@.drop_last());
        }
        (content.to_owned(), Some("\r\n".to_owned()))
    } else {
        (raw.to_owned(), Some("\n".to_owned()))
    }
}

} // verus!
