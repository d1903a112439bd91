//! Turns the text fragments of matched nodes into one text: each fragment is
//! trimmed, empty and noise fragments are dropped, and the rest are joined by a
//! separator line.
use crate::sanitizer::views;
use vstd::prelude::*;

verus! {

/// The number of punctuation-only characters up to which a fragment is noise.
pub const NOISE_LIMIT: usize = 3;

/// `s` without the leading and trailing characters of the Unicode property
/// White_Space.
pub uninterp spec fn trimmed(s: Seq<char>) -> Seq<char>;

/// Relies on `str::trim`: the text without leading and trailing whitespace.
#[verifier::external_body]
fn trim_text(s: &str) -> (r: &str)
    ensures
        r@ == trimmed(s@),
{
    s.trim()
}

/// ASCII punctuation: `!` to `/`, `:` to `@`, `[` to `` ` ``, `{` to `~`.
pub open spec fn is_ascii_punct(c: char) -> bool {
    ('!' <= c <= '/') || (':' <= c <= '@') || ('[' <= c <= '`') || ('{' <= c <= '~')
}

/// How many characters of `s` are ASCII punctuation.
pub open spec fn punct_count(s: Seq<char>) -> nat
    decreases s.len(),
{
    if s.len() == 0 {
        0
    } else {
        punct_count(s.drop_last()) + if is_ascii_punct(s.last()) {
            1nat
        } else {
            0nat
        }
    }
}

/// A fragment is kept when it is not empty, and either holds a character that
/// is not punctuation or holds more than `NOISE_LIMIT` punctuation characters.
pub open spec fn keeps(s: Seq<char>) -> bool {
    s.len() > 0 && (punct_count(s) < s.len() || punct_count(s) > NOISE_LIMIT)
}

/// The trimmed fragments that are kept, in order.
pub open spec fn cleaned(fs: Seq<Seq<char>>) -> Seq<Seq<char>>
    decreases fs.len(),
{
    if fs.len() == 0 {
        seq![]
    } else {
        let t = trimmed(fs.last());
        cleaned(fs.drop_last()) + if keeps(t) {
            seq![t]
        } else {
            seq![]
        }
    }
}

/// The fragments with `sep` between each two neighbours.
pub open spec fn joined(fs: Seq<Seq<char>>, sep: Seq<char>) -> Seq<char>
    decreases fs.len(),
{
    if fs.len() == 0 {
        seq![]
    } else if fs.len() == 1 {
        fs[0]
    } else {
        joined(fs.drop_last(), sep) + sep + fs.last()
    }
}

/// The separator between joined fragments: a middle dot between blank lines.
pub open spec fn separator() -> Seq<char> {
    seq!['\n', '\n', '\u{00B7}', '\n', '\n']
}

/// The fragments of all nodes, node after node.
pub open spec fn flat(nodes: Seq<Seq<Seq<char>>>) -> Seq<Seq<char>>
    decreases nodes.len(),
{
    if nodes.len() == 0 {
        seq![]
    } else {
        flat(nodes.drop_last()) + nodes.last()
    }
}

/// The text of the matched nodes, given the fragments of each: none when no
/// node matched, else the kept fragments joined by the separator.
pub open spec fn text_of_nodes(nodes: Seq<Seq<Seq<char>>>) -> Option<Seq<char>> {
    if nodes.len() == 0 {
        None
    } else {
        Some(joined(cleaned(flat(nodes)), separator()))
    }
}

/// The views of a list of lists of strings.
pub open spec fn nested_views(v: Seq<Vec<String>>) -> Seq<Seq<Seq<char>>> {
    v.map_values(|x: Vec<String>| views(x@))
}

proof fn lemma_punct_count_bound(s: Seq<char>)
    ensures
        punct_count(s) <= s.len(),
    decreases s.len(),
{
    if s.len() > 0 {
        lemma_punct_count_bound(s.drop_last());
    }
}

proof fn lemma_non_punct_counts_less(s: Seq<char>, i: int)
    requires
        0 <= i < s.len(),
        !is_ascii_punct(s[i]),
    ensures
        punct_count(s) < s.len(),
    decreases s.len(),
{
    if i == s.len() - 1 {
        lemma_punct_count_bound(s.drop_last());
    } else {
        lemma_non_punct_counts_less(s.drop_last(), i);
    }
}

/// A fragment of punctuation alone is noise up to `NOISE_LIMIT` characters and
/// kept beyond; a fragment with any other character is always kept.
pub proof fn lemma_noise_threshold(s: Seq<char>)
    ensures
        (forall|i: int| 0 <= i < s.len() ==> is_ascii_punct(#[trigger] s[i])) ==> (keeps(s)
            <==> s.len() > NOISE_LIMIT),
        (exists|i: int| 0 <= i < s.len() && !is_ascii_punct(#[trigger] s[i])) ==> keeps(s),
    decreases s.len(),
{
    if forall|i: int| 0 <= i < s.len() ==> is_ascii_punct(#[trigger] s[i]) {
        lemma_all_punct_count(s);
    }
    if exists|i: int| 0 <= i < s.len() && !is_ascii_punct(#[trigger] s[i]) {
        let i = choose|i: int| 0 <= i < s.len() && !is_ascii_punct(#[trigger] s[i]);
        lemma_non_punct_counts_less(s, i);
    }
}

proof fn lemma_all_punct_count(s: Seq<char>)
    requires
        forall|i: int| 0 <= i < s.len() ==> is_ascii_punct(#[trigger] s[i]),
    ensures
        punct_count(s) == s.len(),
    decreases s.len(),
{
    if s.len() > 0 {
        let d = s.drop_last();
        assert forall|i: int| 0 <= i < d.len() implies is_ascii_punct(#[trigger] d[i]) by {
            assert(d[i] == s[i]);
        }
        lemma_all_punct_count(d);
    }
}

/// Whether a byte is an ASCII punctuation character.
fn is_punct_byte(b: u8) -> (r: bool)
    ensures
        r == ((33 <= b <= 47) || (58 <= b <= 64) || (91 <= b <= 96) || (123 <= b <= 126)),
{
    (33 <= b && b <= 47) || (58 <= b && b <= 64) || (91 <= b && b <= 96) || (123 <= b && b
        <= 126)
}

/// Whether a trimmed fragment is kept.
pub fn is_kept(s: &str) -> (r: bool)
    ensures
        r == keeps(s@),
{
    let n = s.unicode_len();
    if n == 0 {
        return false;
    }
    if !s.is_ascii() {
        proof {
            let i = choose|i: int| 0 <= i < s@.len() && !('\0' <= #[trigger] s@[i] <= '\u{7f}');
            lemma_non_punct_counts_less(s@, i);
        }
        return true;
    }
    let mut count: usize = 0;
    let mut i: usize = 0;
    while i < n
        invariant
            n == s@.len(),
            s.is_ascii(),
            i <= n,
            count == punct_count(s@.take(i as int)),
            count <= i,
        decreases n - i,
    {
        let b = s.get_ascii(i);
        proof {
            let c = s@[i as int];
            assert('\0' <= c <= '\u{7f}');
            assert(c as u8 == b);
            assert(s@.take(i + 1).drop_last() =~= s@.take(i as int));
            assert(is_ascii_punct(c) == ((33 <= b <= 47) || (58 <= b <= 64) || (91 <= b <= 96)
                || (123 <= b <= 126)));
        }
        if is_punct_byte(b) {
            count = count + 1;
        }
        i = i + 1;
    }
    assert(s@.take(n as int) =~= s@);
    count < n || count > NOISE_LIMIT
}

/// Trims each fragment, drops the empty and the noise ones, and joins the
/// rest with the separator.
pub fn join_fragments(fragments: &Vec<String>) -> (r: String)
    ensures
        r@ == joined(cleaned(views(fragments@)), separator()),
{
    let sep = String::from_str("\n\n\u{00B7}\n\n");
    proof {
        reveal_strlit("\n\n\u{00B7}\n\n");
        assert(sep@ =~= separator());
    }
    let mut r = String::new();
    let mut first = true;
    let mut i: usize = 0;
    while i < fragments.len()
        invariant
            i <= fragments@.len(),
            sep@ == separator(),
            first == (cleaned(views(fragments@).take(i as int)).len() == 0),
            r@ == joined(cleaned(views(fragments@).take(i as int)), separator()),
        decreases fragments@.len() - i,
    {
        let ghost before = cleaned(views(fragments@).take(i as int));
        let t = trim_text(fragments[i].as_str());
        let keep = is_kept(t);
        proof {
            let vs = views(fragments@);
            assert(vs.take(i + 1).drop_last() =~= vs.take(i as int));
            assert(vs.take(i + 1).last() == fragments@[i as int]@);
        }
        if keep {
            if first {
                proof {
                    assert(r@ =~= Seq::<char>::empty());
                }
                r.append(t);
                first = false;
                proof {
                    assert(cleaned(views(fragments@).take(i + 1)) =~= seq![t@]);
                }
            } else {
                r.append(sep.as_str());
                r.append(t);
                proof {
                    let now = cleaned(views(fragments@).take(i + 1));
                    assert(now =~= before + seq![t@]);
                    assert(now.drop_last() =~= before);
                }
            }
        } else {
            proof {
                assert(cleaned(views(fragments@).take(i + 1)) =~= before);
            }
        }
        i = i + 1;
    }
    assert(views(fragments@).take(fragments@.len() as int) =~= views(fragments@));
    r
}

/// The text of the matched nodes, given the text fragments of each: `None`
/// when no node matched, else the kept fragments joined by the separator.
pub fn text_of(nodes: &Vec<Vec<String>>) -> (r: Option<String>)
    ensures
        text_of_nodes(nested_views(nodes@)) matches Some(t) ==> (r matches Some(s) && s@ == t),
        text_of_nodes(nested_views(nodes@)) is None ==> r is None,
{
    if nodes.len() == 0 {
        return None;
    }
    let mut all: Vec<String> = Vec::new();
    let mut i: usize = 0;
    while i < nodes.len()
        invariant
            i <= nodes@.len(),
            views(all@) == flat(nested_views(nodes@).take(i as int)),
        decreases nodes@.len() - i,
    {
        let node = &nodes[i];
        let ghost start = views(all@);
        let mut j: usize = 0;
        while j < node.len()
            invariant
                i < nodes@.len(),
                j <= node@.len(),
                node == nodes@[i as int],
                views(all@) == start + views(node@).take(j as int),
            decreases node@.len() - j,
        {
            let f = node[j].clone();
            let ghost prev = all@;
            all.push(f);
            proof {
                assert(all@ == prev.push(node@[j as int]));
                assert(views(all@) =~= views(prev).push(node@[j as int]@));
                assert(views(node@).take(j + 1) =~= views(node@).take(j as int).push(
                    node@[j as int]@,
                ));
                assert(views(all@) =~= start + views(node@).take(j + 1));
            }
            j = j + 1;
        }
        proof {
            let nv = nested_views(nodes@);
            assert(views(node@).take(node@.len() as int) =~= views(node@));
            assert(nv.take(i + 1).drop_last() =~= nv.take(i as int));
            assert(nv.take(i + 1).last() == views(node@));
        }
        i = i + 1;
    }
    assert(nested_views(nodes@).take(nodes@.len() as int) =~= nested_views(nodes@));
    Some(join_fragments(&all))
}

} // verus!
