//! Text helpers: grapheme-cluster truncation, joining with a separator,
//! decimal rendering of integers and percent-encoding.
use unicode_segmentation::UnicodeSegmentation;
use vstd::prelude::*;
use vstd::string::*;
use vstd::utf8::encode_utf8;

verus! {

/// The views of a sequence of strings.
pub open spec fn views(v: Seq<String>) -> Seq<Seq<char>> {
    v.map_values(|x: String| x@)
}

/// The parts written one after another.
pub open spec fn concat_all(parts: Seq<Seq<char>>) -> Seq<char>
    decreases parts.len(),
{
    if parts.len() == 0 {
        Seq::empty()
    } else {
        concat_all(parts.drop_last()) + parts.last()
    }
}

/// The parts written one after another, with `sep` between two neighbours.
pub open spec fn joined(parts: Seq<Seq<char>>, sep: Seq<char>) -> Seq<char>
    decreases parts.len(),
{
    if parts.len() == 0 {
        Seq::empty()
    } else if parts.len() == 1 {
        parts[0]
    } else {
        joined(parts.drop_last(), sep) + sep + parts.last()
    }
}

/// The first `n` clusters (all of them, where there are fewer) followed by `trail`.
pub open spec fn shortened(clusters: Seq<Seq<char>>, n: nat, trail: Seq<char>) -> Seq<char> {
    let k = if n < clusters.len() { n as int } else { clusters.len() as int };
    concat_all(clusters.take(k)) + trail
}

/// The extended grapheme clusters of a text, in order.
pub uninterp spec fn grapheme_clusters(s: Seq<char>) -> Seq<Seq<char>>;

/// Relies on `UnicodeSegmentation::graphemes(s, true)`: it yields the extended
/// grapheme clusters of `s` as consecutive, non-empty slices that cover `s`.
#[verifier::external_body]
fn split_graphemes(s: &str) -> (r: Vec<String>)
    ensures
        views(r@) == grapheme_clusters(s@),
        concat_all(views(r@)) == s@,
        forall|i: int| 0 <= i < r@.len() ==> #[trigger] r@[i]@.len() > 0,
{
    s.graphemes(true).map(|g| g.to_string()).collect()
}

proof fn lemma_concat_take_step(parts: Seq<Seq<char>>, i: int)
    requires
        0 <= i < parts.len(),
    ensures
        concat_all(parts.take(i + 1)) == concat_all(parts.take(i)) + parts[i],
{
    assert(parts.take(i + 1).drop_last() =~= parts.take(i));
}

/// Writes the first `length` of the given clusters (all of them, where there
/// are fewer) one after another, then `trail`.
pub fn shorten_clusters(clusters: &Vec<String>, length: usize, trail: &str) -> (r: String)
    ensures
        r@ == shortened(views(clusters@), length as nat, trail@),
{
    let n: usize = if length < clusters.len() { length } else { clusters.len() };
    let mut out = String::new();
    let mut i: usize = 0;
    while i < n
        invariant
            i <= n,
            n <= clusters.len(),
            out@ == concat_all(views(clusters@).take(i as int)),
        decreases n - i,
    {
        proof {
            lemma_concat_take_step(views(clusters@), i as int);
        }
        out.append(clusters[i].as_str());
        i = i + 1;
    }
    out.append(trail);
    out
}

/// The first `k` parts written one after another begin the whole.
proof fn lemma_concat_take_prefix(parts: Seq<Seq<char>>, k: int)
    requires
        0 <= k <= parts.len(),
    ensures
        concat_all(parts.take(k)).is_prefix_of(concat_all(parts)),
    decreases parts.len(),
{
    if k == parts.len() {
        assert(parts.take(k) =~= parts);
    } else {
        let init = parts.drop_last();
        assert(init.take(k) =~= parts.take(k));
        lemma_concat_take_prefix(init, k);
        let p = concat_all(parts.take(k));
        let whole = concat_all(parts);
        assert(whole == concat_all(init) + parts.last());
        assert(whole.subrange(0, p.len() as int) =~= concat_all(init).subrange(0, p.len() as int));
    }
}

/// Shortens `string` to its first `length` extended grapheme clusters and
/// appends `trail`; a cluster is never split, and a text with fewer clusters
/// is kept whole.
pub fn shorten_unicode(string: String, length: usize, trail: &str) -> (r: String)
    ensures
        r@ == shortened(grapheme_clusters(string@), length as nat, trail@),
        concat_all(grapheme_clusters(string@)) == string@,
        forall|i: int|
            0 <= i < grapheme_clusters(string@).len() ==> #[trigger] grapheme_clusters(
                string@,
            )[i].len() > 0,
        r@.len() >= trail@.len(),
        r@.subrange(0, r@.len() - trail@.len()).is_prefix_of(string@),
        r@.subrange(r@.len() - trail@.len(), r@.len() as int) == trail@,
        length >= grapheme_clusters(string@).len() ==> r@ == string@ + trail@,
{
    let clusters = split_graphemes(string.as_str());
    let r = shorten_clusters(&clusters, length, trail);
    proof {
        let c = grapheme_clusters(string@);
        assert forall|i: int| 0 <= i < c.len() implies #[trigger] c[i].len() > 0 by {
            assert(c[i] == views(clusters@)[i]);
        }
        let k = if length < c.len() { length as int } else { c.len() as int };
        let head = concat_all(c.take(k));
        lemma_concat_take_prefix(c, k);
        assert(r@.subrange(0, r@.len() - trail@.len()) =~= head);
        assert(r@.subrange(r@.len() - trail@.len(), r@.len() as int) =~= trail@);
        if length >= c.len() {
            assert(c.take(k) =~= c);
        }
    }
    r
}

/// Whatever the text, the count and the trail, the shortened text ends with
/// the trail, and what stands before it is the text's first `k` clusters
/// written whole, for some `k` no larger than the count.
pub proof fn lemma_shortened_keeps_whole_clusters(s: Seq<char>, n: nat, trail: Seq<char>)
    ensures
        ({
            let r = shortened(grapheme_clusters(s), n, trail);
            &&& r.len() >= trail.len()
            &&& r.subrange(r.len() - trail.len(), r.len() as int) == trail
            &&& exists|k: int|
                0 <= k <= n && k <= grapheme_clusters(s).len() && r.subrange(
                    0,
                    r.len() - trail.len(),
                ) == concat_all(#[trigger] grapheme_clusters(s).take(k))
        }),
{
    let c = grapheme_clusters(s);
    let k = if n < c.len() { n as int } else { c.len() as int };
    let r = shortened(c, n, trail);
    let head = concat_all(c.take(k));
    assert(r == head + trail);
    assert(r.subrange(r.len() - trail.len(), r.len() as int) =~= trail);
    assert(r.subrange(0, r.len() - trail.len()) =~= head);
}

proof fn lemma_joined_step(parts: Seq<Seq<char>>, sep: Seq<char>, i: int)
    requires
        0 < i < parts.len(),
    ensures
        joined(parts.take(i + 1), sep) == joined(parts.take(i), sep) + sep + parts[i],
{
    assert(parts.take(i + 1).drop_last() =~= parts.take(i));
}

/// Joins the parts in order, with `sep` between two neighbours.
pub fn join_with(parts: &Vec<String>, sep: &str) -> (r: String)
    ensures
        r@ == joined(views(parts@), sep@),
{
    let mut out = String::new();
    if parts.len() == 0 {
        return out;
    }
    out.append(parts[0].as_str());
    assert(views(parts@).take(1) =~= seq![parts@[0]@]);
    let mut i: usize = 1;
    while i < parts.len()
        invariant
            1 <= i <= parts.len(),
            out@ == joined(views(parts@).take(i as int), sep@),
        decreases parts.len() - i,
    {
        proof {
            lemma_joined_step(views(parts@), sep@, i as int);
        }
        out.append(sep);
        out.append(parts[i].as_str());
        i = i + 1;
    }
    assert(views(parts@).take(parts.len() as int) =~= views(parts@));
    out
}

/// The decimal digit for `d`.
pub open spec fn digit_char(d: nat) -> char {
    if d == 0 {
        '0'
    } else if d == 1 {
        '1'
    } else if d == 2 {
        '2'
    } else if d == 3 {
        '3'
    } else if d == 4 {
        '4'
    } else if d == 5 {
        '5'
    } else if d == 6 {
        '6'
    } else if d == 7 {
        '7'
    } else if d == 8 {
        '8'
    } else {
        '9'
    }
}

/// The decimal form of `n`, without leading zeros.
pub open spec fn decimal(n: nat) -> Seq<char>
    decreases n,
{
    if n < 10 {
        seq![digit_char(n)]
    } else {
        decimal(n / 10).push(digit_char(n % 10))
    }
}

fn digit_str(d: u64) -> (r: &'static str)
    requires
        d < 10,
    ensures
        r@ == seq![digit_char(d as nat)],
{
    proof {
        reveal_strlit("0");
        reveal_strlit("1");
        reveal_strlit("2");
        reveal_strlit("3");
        reveal_strlit("4");
        reveal_strlit("5");
        reveal_strlit("6");
        reveal_strlit("7");
        reveal_strlit("8");
        reveal_strlit("9");
    }
    match d {
        0 => "0",
        1 => "1",
        2 => "2",
        3 => "3",
        4 => "4",
        5 => "5",
        6 => "6",
        7 => "7",
        8 => "8",
        _ => "9",
    }
}

/// The decimal form of `n`.
pub fn decimal_string(n: u64) -> (r: String)
    ensures
        r@ == decimal(n as nat),
    decreases n,
{
    if n < 10 {
        let mut s = String::new();
        s.append(digit_str(n));
        assert(s@ =~= decimal(n as nat));
        s
    } else {
        let mut s = decimal_string(n / 10);
        s.append(digit_str(n % 10));
        assert(s@ =~= decimal(n as nat));
        s
    }
}

/// The hexadecimal digit for `d`, in upper case.
pub open spec fn hex_digit(d: nat) -> char {
    if d < 10 {
        digit_char(d)
    } else if d == 10 {
        'A'
    } else if d == 11 {
        'B'
    } else if d == 12 {
        'C'
    } else if d == 13 {
        'D'
    } else if d == 14 {
        'E'
    } else {
        'F'
    }
}

/// The characters that stand for themselves in a query component: ASCII
/// letters and digits and `-`, `.`, `_`, `~`.
pub open spec fn is_unreserved(c: char) -> bool {
    ('0' <= c && c <= '9') || ('A' <= c && c <= 'Z') || ('a' <= c && c <= 'z') || c == '-' || c
        == '.' || c == '_' || c == '~'
}

/// Each byte written as `%` and two upper-case hexadecimal digits.
pub open spec fn escaped_bytes(bytes: Seq<u8>) -> Seq<char>
    decreases bytes.len(),
{
    if bytes.len() == 0 {
        Seq::empty()
    } else {
        let b = bytes.last();
        escaped_bytes(bytes.drop_last()) + seq![
            '%',
            hex_digit((b / 16) as nat),
            hex_digit((b % 16) as nat),
        ]
    }
}

/// The percent-encoding of a text: an unreserved character stands for
/// itself, any other character is written as its UTF-8 bytes, each escaped.
pub open spec fn percent_encoded(s: Seq<char>) -> Seq<char>
    decreases s.len(),
{
    if s.len() == 0 {
        Seq::empty()
    } else {
        let c = s.last();
        percent_encoded(s.drop_last()) + if is_unreserved(c) {
            seq![c]
        } else {
            escaped_bytes(encode_utf8(seq![c]))
        }
    }
}

fn hex_str(d: u8) -> (r: &'static str)
    requires
        d < 16,
    ensures
        r@ == seq![hex_digit(d as nat)],
{
    if d < 10 {
        return digit_str(d as u64);
    }
    proof {
        reveal_strlit("A");
        reveal_strlit("B");
        reveal_strlit("C");
        reveal_strlit("D");
        reveal_strlit("E");
        reveal_strlit("F");
    }
    match d {
        10 => "A",
        11 => "B",
        12 => "C",
        13 => "D",
        14 => "E",
        _ => "F",
    }
}

fn unreserved(c: char) -> (r: bool)
    ensures
        r == is_unreserved(c),
{
    ('0' <= c && c <= '9') || ('A' <= c && c <= 'Z') || ('a' <= c && c <= 'z') || c == '-' || c
        == '.' || c == '_' || c == '~'
}

/// Percent-encodes `s` for use in a query component: unreserved characters
/// are kept, every other character becomes its UTF-8 bytes as `%XX`.
pub fn percent_encode(s: &str) -> (r: String)
    ensures
        r@ == percent_encoded(s@),
{
    let n = s.unicode_len();
    let mut out = String::new();
    let mut i: usize = 0;
    while i < n
        invariant
            i <= n,
            n == s@.len(),
            out@ == percent_encoded(s@.take(i as int)),
        decreases n - i,
    {
        let c = s.get_char(i);
        let piece = s.substring_char(i, i + 1);
        assert(piece@ =~= seq![c]);
        assert(s@.take(i + 1).drop_last() =~= s@.take(i as int));
        if unreserved(c) {
            out.append(piece);
        } else {
            let bytes = piece.as_bytes();
            let ghost before = out@;
            let mut j: usize = 0;
            while j < bytes.len()
                invariant
                    j <= bytes@.len(),
                    bytes@ == encode_utf8(seq![c]),
                    out@ == before + escaped_bytes(bytes@.take(j as int)),
                decreases bytes@.len() - j,
            {
                let b = bytes[j];
                assert(bytes@.take(j + 1).drop_last() =~= bytes@.take(j as int));
                proof {
                    reveal_strlit("%");
                }
                out.append("%");
                out.append(hex_str(b / 16));
                out.append(hex_str(b % 16));
                assert(out@ =~= before + escaped_bytes(bytes@.take(j + 1)));
                j = j + 1;
            }
            assert(bytes@.take(bytes@.len() as int) =~= bytes@);
        }
        i = i + 1;
    }
    assert(s@.take(n as int) =~= s@);
    out
}

} // verus!
