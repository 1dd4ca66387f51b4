//! Character-level string plumbing shared by the whole library, and the
//! few trusted wrappers around std that the logic needs.
use vstd::prelude::*;

verus! {

/// Relies on str::chars: the iterator yields exactly the string's
/// characters, which are the string's view in order.
#[verifier::external_body]
pub fn chars_of(s: &str) -> (r: Vec<char>)
    ensures
        r@ == s@,
{
    s.chars().collect()
}

/// Relies on String: FromIterator<char>: collecting characters yields a
/// string of exactly those characters.
#[verifier::external_body]
pub fn string_of(cs: &Vec<char>) -> (r: String)
    ensures
        r@ == cs@,
{
    cs.iter().collect()
}

/// Character-wise equality of two vectors.
pub fn chars_eq(a: &Vec<char>, b: &Vec<char>) -> (r: bool)
    ensures
        r == (a@ == b@),
{
    if a.len() != b.len() {
        return false;
    }
    let mut i: usize = 0;
    while i < a.len()
        invariant
            a@.len() == b@.len(),
            i <= a@.len(),
            forall|k: int| 0 <= k < i ==> a@[k] == b@[k],
        decreases a@.len() - i,
    {
        if a[i] != b[i] {
            return false;
        }
        i = i + 1;
    }
    proof {
        assert(a@ =~= b@);
    }
    true
}

/// Equality of a character vector against a string slice.
pub fn chars_eq_str(a: &Vec<char>, lit: &str) -> (r: bool)
    ensures
        r == (a@ == lit@),
{
    let l = chars_of(lit);
    chars_eq(a, &l)
}

/// Appends the characters of `s` to `out`.
pub fn append_str(out: &mut Vec<char>, s: &str)
    ensures
        final(out)@ == old(out)@ + s@,
{
    let mut cs = chars_of(s);
    out.append(&mut cs);
}

/// What `str::to_lowercase` returns for a given character sequence.
pub uninterp spec fn lower_of(s: Seq<char>) -> Seq<char>;

/// Relies on str::to_lowercase: the result depends on the characters alone,
/// and an empty string stays empty.
#[verifier::external_body]
pub fn lowercase(s: &str) -> (r: String)
    ensures
        r@ == lower_of(s@),
        s@.len() == 0 ==> r@.len() == 0,
{
    s.to_lowercase()
}

/// The path separators rewritten for Windows.
pub open spec fn spec_convert_path(s: Seq<char>) -> Seq<char> {
    s.map_values(|c: char| if c == '/' { '\\' } else { c })
}

/// Rewrites `/` to `\` when targeting Windows; the platform is a parameter
/// so that the rule itself is checkable everywhere.
pub fn convert_path(path_str: &str, windows: bool) -> (r: String)
    ensures
        windows ==> r@ == spec_convert_path(path_str@),
        !windows ==> r@ == path_str@,
{
    if windows {
        let cs = chars_of(path_str);
        let mut out: Vec<char> = Vec::new();
        let mut i: usize = 0;
        while i < cs.len()
            invariant
                i <= cs@.len(),
                cs@ == path_str@,
                out@ =~= spec_convert_path(path_str@.subrange(0, i as int)),
            decreases cs@.len() - i,
        {
            if cs[i] == '/' {
                out.push('\\');
            } else {
                out.push(cs[i]);
            }
            proof {
                assert(path_str@.subrange(0, i as int + 1) =~= path_str@.subrange(
                    0,
                    i as int,
                ).push(path_str@[i as int]));
                assert(out@ =~= spec_convert_path(path_str@.subrange(0, i as int + 1)));
            }
            i = i + 1;
        }
        proof {
            assert(path_str@.subrange(0, path_str@.len() as int) =~= path_str@);
        }
        string_of(&out)
    } else {
        let cs = chars_of(path_str);
        string_of(&cs)
    }
}

/// Whether a directory entry's file name marks it as hidden.
pub fn is_hidden(name: &str) -> (r: bool)
    ensures
        r == (name@.len() > 0 && name@[0] == '.'),
{
    let cs = chars_of(name);
    cs.len() > 0 && cs[0] == '.'
}

/// The per-user configuration directory under the given home directory.
pub fn app_root(home: &str) -> (r: String)
    ensures
        r@ == home@ + "/.jsonEditor"@,
{
    let mut out = chars_of(home);
    append_str(&mut out, "/.jsonEditor");
    string_of(&out)
}

/// The confirmation text shown before the configuration directory is wiped.
pub fn clear_conf_message(root: &str) -> (r: String)
    ensures
        r@ == "Path: "@ + root@
            + "\n\n    Are you sure you want to clear all JsonEditor configurations? Performing this operation data can not be restored, please back up in advance.\n\n    Note: The application will exit automatically after the configuration cleanup!"@,
{
    let mut out = chars_of("Path: ");
    append_str(&mut out, root);
    append_str(
        &mut out,
        "\n\n    Are you sure you want to clear all JsonEditor configurations? Performing this operation data can not be restored, please back up in advance.\n\n    Note: The application will exit automatically after the configuration cleanup!",
    );
    string_of(&out)
}

/// Mathematical value of a list of string-keyed values.
pub open spec fn pairs_view(es: Seq<(String, crate::json::Json)>) -> Seq<
    (Seq<char>, crate::json::JsonV),
>
    decreases es.len(),
{
    if es.len() == 0 {
        Seq::empty()
    } else {
        pairs_view(es.drop_last()).push((es.last().0@, es.last().1@))
    }
}

/// The key/value pairs that `vec_to_hashmap` appends: one per element
/// whose key field is present, in order.
pub open spec fn keyed_pairs(v: Seq<(Option<String>, crate::json::Json)>) -> Seq<
    (Seq<char>, crate::json::JsonV),
>
    decreases v.len(),
{
    if v.len() == 0 {
        Seq::empty()
    } else {
        (match v[0].0 {
            Some(k) => seq![(k@, v[0].1@)],
            None => Seq::empty(),
        }) + keyed_pairs(v.drop_first())
    }
}

/// Indexes records by an extracted key: each element carrying a key is
/// appended to the map, in order, so the last pair with a key wins on
/// lookup.
pub fn vec_to_hashmap(
    vec: Vec<(Option<String>, crate::json::Json)>,
    map: &mut Vec<(String, crate::json::Json)>,
)
    ensures
        pairs_view(final(map)@) == pairs_view(old(map)@)
            + keyed_pairs(vec@),
{
    let ghost orig = vec@;
    let mut rest = vec;
    proof {
        assert(keyed_pairs(orig) + Seq::<(Seq<char>, crate::json::JsonV)>::empty() =~= keyed_pairs(
            orig,
        ));
    }
    while rest.len() > 0
        invariant
            pairs_view(old(map)@) + keyed_pairs(orig) == pairs_view(map@) + keyed_pairs(rest@),
        decreases rest@.len(),
    {
        let ghost before = rest@;
        let (k, v) = rest.remove(0);
        proof {
            assert(before.drop_first() =~= rest@);
        }
        match k {
            Some(ks) => {
                let ghost m0 = map@;
                let ghost kv = (ks@, v@);
                map.push((ks, v));
                proof {
                    assert(map@.drop_last() =~= m0);
                    assert((map@.last().0@, map@.last().1@) == kv);
                    assert(pairs_view(map@) == pairs_view(m0).push(kv));
                    assert(keyed_pairs(before) =~= seq![kv] + keyed_pairs(rest@));
                    assert(pairs_view(m0).push(kv) + keyed_pairs(rest@) =~= pairs_view(m0) + (
                    seq![kv] + keyed_pairs(rest@)));
                }
            },
            None => {
                proof {
                    assert(keyed_pairs(before) =~= keyed_pairs(rest@));
                }
            },
        }
    }
    proof {
        assert(keyed_pairs(rest@) =~= Seq::<(Seq<char>, crate::json::JsonV)>::empty());
        assert(pairs_view(map@) + keyed_pairs(rest@) =~= pairs_view(map@));
    }
}

} // verus!
