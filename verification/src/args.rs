//! The option table and the argument serializer shared by the facades.
//!
//! A table is a sequence of `(name, value)` entries with distinct names. The
//! serializer turns it into the flat list of command-line tokens that precede
//! the positional input and output arguments of the external tool.

use vstd::prelude::*;

verus! {

/// One table entry as it appears in specifications: a name and its optional
/// value, both as character sequences.
pub type OptEntry = (Seq<char>, Option<Seq<char>>);

/// Character-by-character string equality.
pub fn str_eq(a: &str, b: &str) -> (r: bool)
    ensures
        r == (a@ == b@),
{
    let n = a.unicode_len();
    if n != b.unicode_len() {
        return false;
    }
    let mut i: usize = 0;
    while i < n
        invariant
            n == a@.len(),
            n == b@.len(),
            i <= n,
            forall|j: int| 0 <= j < i ==> a@[j] == b@[j],
        decreases n - i,
    {
        if a.get_char(i) != b.get_char(i) {
            return false;
        }
        i = i + 1;
    }
    proof {
        assert(a@ =~= b@);
    }
    true
}

/// The two names that stand bare on the command line, as positional object
/// markers, instead of carrying a `--` prefix.
pub open spec fn spec_is_positional(k: Seq<char>) -> bool {
    k == "toc"@ || k == "cover"@
}

/// A name with the `--` flag prefix.
pub open spec fn spec_dashed(k: Seq<char>) -> Seq<char> {
    "--"@ + k
}

/// The tokens that one entry contributes: nothing for an unset or `"false"`
/// value, the bare name for a positional marker, `--name` for `"true"`, and
/// `--name value` otherwise.
pub open spec fn spec_entry_tokens(k: Seq<char>, v: Option<Seq<char>>) -> Seq<Seq<char>> {
    match v {
        Option::None => Seq::empty(),
        Option::Some(val) => if val == "false"@ {
            Seq::empty()
        } else if spec_is_positional(k) {
            seq![k]
        } else if val == "true"@ {
            seq![spec_dashed(k)]
        } else {
            seq![spec_dashed(k), val]
        },
    }
}

/// The serialization of a whole table, entry by entry, in table order.
pub open spec fn spec_tokens(entries: Seq<OptEntry>) -> Seq<Seq<char>>
    decreases entries.len(),
{
    if entries.len() == 0 {
        Seq::empty()
    } else {
        spec_entry_tokens(entries[0].0, entries[0].1) + spec_tokens(entries.drop_first())
    }
}

/// Serialization distributes over appending one entry at the end.
pub proof fn lemma_tokens_push(entries: Seq<OptEntry>, e: OptEntry)
    ensures
        spec_tokens(entries.push(e)) == spec_tokens(entries) + spec_entry_tokens(e.0, e.1),
    decreases entries.len(),
{
    if entries.len() == 0 {
        assert(entries.push(e)[0] == e);
        assert(entries.push(e).drop_first() =~= Seq::<OptEntry>::empty());
        assert(spec_tokens(Seq::<OptEntry>::empty()) == Seq::<Seq<char>>::empty());
        assert(spec_tokens(entries.push(e)) =~= spec_tokens(entries) + spec_entry_tokens(
            e.0,
            e.1,
        ));
    } else {
        assert(entries.push(e)[0] == entries[0]);
        assert(entries.push(e).drop_first() =~= entries.drop_first().push(e));
        lemma_tokens_push(entries.drop_first(), e);
        assert(spec_tokens(entries.push(e)) =~= spec_tokens(entries) + spec_entry_tokens(
            e.0,
            e.1,
        ));
    }
}

/// A name with the `--` flag prefix.
pub fn dashed(k: &str) -> (r: String)
    ensures
        r@ == spec_dashed(k@),
{
    String::from_str("--").concat(k)
}

/// Serializes a table into its command-line tokens.
pub fn build_tokens(entries: &Vec<(String, Option<String>)>) -> (r: Vec<String>)
    ensures
        r.deep_view() == spec_tokens(entries.deep_view()),
{
    let mut out: Vec<String> = Vec::new();
    let n = entries.len();
    let mut i: usize = 0;
    while i < n
        invariant
            i <= n,
            n == entries.len(),
            out.deep_view() == spec_tokens(entries.deep_view().take(i as int)),
        decreases n - i,
    {
        let ghost prefix = entries.deep_view().take(i as int);
        let ghost entry = entries.deep_view()[i as int];
        proof {
            assert(entries.deep_view().take(i as int + 1) =~= prefix.push(entry));
            lemma_tokens_push(prefix, entry);
        }
        let key: &String = &entries[i].0;
        match &entries[i].1 {
            Option::None => {
                proof {
                    assert(out.deep_view() =~= spec_tokens(entries.deep_view().take(i as int + 1)));
                }
            },
            Option::Some(v) => {
                let ghost before = out.deep_view();
                if str_eq(v.as_str(), "false") {
                    proof {
                        assert(out.deep_view() =~= spec_tokens(
                            entries.deep_view().take(i as int + 1),
                        ));
                    }
                } else if str_eq(key.as_str(), "toc") || str_eq(key.as_str(), "cover") {
                    out.push(key.clone());
                    proof {
                        assert(out.deep_view() =~= before.push(entry.0));
                        assert(out.deep_view() =~= spec_tokens(
                            entries.deep_view().take(i as int + 1),
                        ));
                    }
                } else if str_eq(v.as_str(), "true") {
                    out.push(dashed(key.as_str()));
                    proof {
                        assert(out.deep_view() =~= before.push(spec_dashed(entry.0)));
                        assert(out.deep_view() =~= spec_tokens(
                            entries.deep_view().take(i as int + 1),
                        ));
                    }
                } else {
                    out.push(dashed(key.as_str()));
                    out.push(v.clone());
                    proof {
                        assert(out.deep_view() =~= before.push(spec_dashed(entry.0)).push(entry.1->0));
                        assert(out.deep_view() =~= spec_tokens(
                            entries.deep_view().take(i as int + 1),
                        ));
                    }
                }
            },
        }
        i = i + 1;
    }
    proof {
        assert(entries.deep_view().take(n as int) =~= entries.deep_view());
    }
    out
}

/// The index of the first entry named `k`, or `-1` when there is none.
pub open spec fn spec_find(s: Seq<OptEntry>, k: Seq<char>) -> int
    decreases s.len(),
{
    if s.len() == 0 {
        -1
    } else if s[0].0 == k {
        0
    } else {
        let r = spec_find(s.drop_first(), k);
        if r < 0 {
            -1
        } else {
            r + 1
        }
    }
}

/// What `spec_find` returns: a valid index of the first entry named `k`,
/// or `-1` when no entry carries that name.
pub proof fn lemma_find(s: Seq<OptEntry>, k: Seq<char>)
    ensures
        -1 <= spec_find(s, k) < s.len(),
        spec_find(s, k) >= 0 ==> s[spec_find(s, k)].0 == k,
        forall|j: int| 0 <= j < s.len() && #[trigger] s[j].0 == k ==> spec_find(s, k) >= 0,
        forall|j: int| 0 <= j < spec_find(s, k) ==> #[trigger] s[j].0 != k,
        spec_find(s, k) == -1 ==> forall|j: int| 0 <= j < s.len() ==> #[trigger] s[j].0 != k,
    decreases s.len(),
{
    if s.len() == 0 {
    } else if s[0].0 == k {
    } else {
        lemma_find(s.drop_first(), k);
        assert(forall|j: int| 1 <= j < s.len() ==> s[j] == s.drop_first()[j - 1]);
    }
}

/// The table after setting `k` to `v`: the first entry named `k` is
/// overwritten in place, or a new entry is appended at the end.
pub open spec fn spec_upsert(s: Seq<OptEntry>, k: Seq<char>, v: Option<Seq<char>>) -> Seq<
    OptEntry,
> {
    if spec_find(s, k) >= 0 {
        s.update(spec_find(s, k), (k, v))
    } else {
        s.push((k, v))
    }
}

/// Sets `key` to `value`, overwriting the first entry of that name or
/// appending a new one. The caller has already validated the name.
pub fn table_upsert(entries: &mut Vec<(String, Option<String>)>, key: &str, value: Option<&str>)
    ensures
        final(entries).deep_view() == spec_upsert(old(entries).deep_view(), key@, value.deep_view()),
{
    proof {
        lemma_find(entries.deep_view(), key@);
    }
    let owned: Option<String> = match value {
        Option::Some(v) => Option::Some(String::from_str(v)),
        Option::None => Option::None,
    };
    let n = entries.len();
    let mut i: usize = 0;
    while i < n
        invariant
            i <= n,
            n == entries.len(),
            *entries == *old(entries),
            owned.deep_view() == value.deep_view(),
            forall|j: int| 0 <= j < i ==> #[trigger] entries.deep_view()[j].0 != key@,
        decreases n - i,
    {
        if str_eq(entries[i].0.as_str(), key) {
            proof {
                assert(entries.deep_view()[i as int].0 == key@);
                lemma_find(entries.deep_view(), key@);
                assert(spec_find(entries.deep_view(), key@) == i);
            }
            let ghost before = entries.deep_view();
            entries.set(i, (String::from_str(key), owned));
            proof {
                assert(entries.deep_view() =~= before.update(
                    i as int,
                    (key@, value.deep_view()),
                ));
            }
            return ;
        }
        i = i + 1;
    }
    proof {
        lemma_find(entries.deep_view(), key@);
        assert(spec_find(entries.deep_view(), key@) == -1);
    }
    let ghost before = entries.deep_view();
    entries.push((String::from_str(key), owned));
    proof {
        assert(entries.deep_view() =~= before.push((key@, value.deep_view())));
    }
}

/// The message a facade refuses an option name with.
pub open spec fn spec_invalid_option_msg(k: Seq<char>) -> Seq<char> {
    "Invalid option: "@ + k
}

/// The table after applying a sequence of `(name, value)` pairs in order,
/// stopping at the first name the allowlist refuses, together with that
/// first refused name (or `None` when every pair applied). Pairs before the
/// refused one stay applied: there is no rollback.
pub open spec fn spec_set_many(
    s: Seq<OptEntry>,
    pairs: Seq<OptEntry>,
    allowed: spec_fn(Seq<char>) -> bool,
) -> (Seq<OptEntry>, Option<Seq<char>>)
    decreases pairs.len(),
{
    if pairs.len() == 0 {
        (s, Option::None)
    } else if !allowed(pairs[0].0) {
        (s, Option::Some(pairs[0].0))
    } else {
        spec_set_many(spec_upsert(s, pairs[0].0, pairs[0].1), pairs.drop_first(), allowed)
    }
}

/// The empty table serializes to no tokens.
pub proof fn lemma_tokens_empty()
    ensures
        spec_tokens(Seq::<OptEntry>::empty()) == Seq::<Seq<char>>::empty(),
{
}

/// A table holding the one entry `n: Some(v)`, with `n` not a positional
/// marker and `v` neither `"true"` nor `"false"`, serializes to exactly the
/// two tokens `--n` and `v`, in that order, with `v` passed verbatim.
pub proof fn lemma_tokens_of_plain_value(n: Seq<char>, v: Seq<char>)
    requires
        !spec_is_positional(n),
        v != "true"@,
        v != "false"@,
    ensures
        spec_tokens(seq![(n, Option::Some(v))]) == seq![spec_dashed(n), v],
{
    lemma_tokens_empty();
    assert(seq![(n, Option::Some(v))].drop_first() =~= Seq::<OptEntry>::empty());
    assert(spec_tokens(seq![(n, Option::Some(v))]) =~= seq![spec_dashed(n), v]);
}

/// A table holding the one entry `n: Some("true")`, with `n` not a
/// positional marker, serializes to exactly the one token `--n`.
pub proof fn lemma_tokens_of_true(n: Seq<char>)
    requires
        !spec_is_positional(n),
    ensures
        spec_tokens(seq![(n, Option::Some("true"@))]) == seq![spec_dashed(n)],
{
    assert("true"@ != "false"@) by {
        reveal_strlit("true");
        reveal_strlit("false");
        assert("true"@.len() == 4);
        assert("false"@.len() == 5);
    }
    lemma_tokens_empty();
    assert(seq![(n, Option::Some("true"@))].drop_first() =~= Seq::<OptEntry>::empty());
    assert(spec_tokens(seq![(n, Option::Some("true"@))]) =~= seq![spec_dashed(n)]);
}

/// A table holding the one entry `n: Some(v)` for a positional marker `n`
/// (`toc` or `cover`) and any value `v` other than `"false"` serializes to
/// exactly the one bare token `n`: the value itself is ignored.
pub proof fn lemma_tokens_of_positional(n: Seq<char>, v: Seq<char>)
    requires
        spec_is_positional(n),
        v != "false"@,
    ensures
        spec_tokens(seq![(n, Option::Some(v))]) == seq![n],
{
    lemma_tokens_empty();
    assert(seq![(n, Option::Some(v))].drop_first() =~= Seq::<OptEntry>::empty());
    assert(spec_tokens(seq![(n, Option::Some(v))]) =~= seq![n]);
}

/// A table holding the one entry `n: Some("false")` serializes to no tokens
/// for `n`, whatever the name.
pub proof fn lemma_tokens_of_false(n: Seq<char>)
    ensures
        spec_tokens(seq![(n, Option::Some("false"@))]) == Seq::<Seq<char>>::empty(),
{
    lemma_tokens_empty();
    assert(seq![(n, Option::Some("false"@))].drop_first() =~= Seq::<OptEntry>::empty());
    assert(spec_tokens(seq![(n, Option::Some("false"@))]) =~= Seq::<Seq<char>>::empty());
}

/// A table holding the one entry `n: None` serializes to no tokens for `n`,
/// whatever the name.
pub proof fn lemma_tokens_of_unset(n: Seq<char>)
    ensures
        spec_tokens(seq![(n, Option::None)]) == Seq::<Seq<char>>::empty(),
{
    lemma_tokens_empty();
    assert(seq![(n, Option::None::<Seq<char>>)].drop_first() =~= Seq::<OptEntry>::empty());
    assert(spec_tokens(seq![(n, Option::None)]) =~= Seq::<Seq<char>>::empty());
}

} // verus!
