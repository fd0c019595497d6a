//! Slug generation: a lower-cased title with every run of
//! non-alphanumeric characters collapsed to a single dash and no dash at
//! either end; a fresh identifier stands in when nothing is left, and a
//! short random suffix makes a colliding slug unique.

use vstd::prelude::*;
use vstd::string::{StrSliceExecFns, StringExecFns};

use crate::token::{format_token, fresh_token, spec_token_text};

verus! {

/// What lower-casing a text yields; depends on the text alone.
pub uninterp spec fn spec_lowercase(s: Seq<char>) -> Seq<char>;

/// Whether a character counts as alphanumeric; depends on the character
/// alone.
pub uninterp spec fn spec_alphanumeric(c: char) -> bool;

/// Relies on `str::to_lowercase`: the result depends on the characters
/// alone.
#[verifier::external_body]
fn lowercase(s: &str) -> (r: String)
    ensures
        r@ == spec_lowercase(s@),
{
    s.to_lowercase()
}

/// Relies on `char::is_alphanumeric`: the answer depends on the
/// character alone, and a dash is not alphanumeric.
#[verifier::external_body]
fn alphanumeric(c: char) -> (r: bool)
    ensures
        r == spec_alphanumeric(c),
        r ==> c != '-',
{
    c.is_alphanumeric()
}

/// Relies on `String`'s `FromIterator` over characters: the text holds
/// exactly the given characters, in order.
#[verifier::external_body]
fn chars_string(v: Vec<char>) -> (r: String)
    ensures
        r@ == v@,
{
    v.into_iter().collect()
}

/// Each alphanumeric character kept, every other character replaced by a
/// dash.
pub open spec fn spec_mapped(s: Seq<char>) -> Seq<char> {
    Seq::new(
        s.len(),
        |i: int|
            if spec_alphanumeric(s[i]) {
                s[i]
            } else {
                '-'
            },
    )
}

/// Whether some character other than a dash remains.
pub open spec fn spec_has_kept(s: Seq<char>) -> bool {
    exists|i: int| 0 <= i < s.len() && s[i] != '-'
}

/// The collapse-and-trim pass over a dash-mapped text: kept characters
/// come through; a single dash stands between consecutive runs of kept
/// characters (`started` says whether a run has already been emitted);
/// leading and trailing dashes vanish.
pub open spec fn spec_slugified(s: Seq<char>, started: bool) -> Seq<char>
    decreases s.len(),
{
    if s.len() == 0 {
        Seq::empty()
    } else if s[0] != '-' {
        seq![s[0]] + spec_slugified(s.skip(1), true)
    } else if started && spec_has_kept(s.skip(1)) {
        seq!['-'] + spec_slugified(s.skip(1), false)
    } else {
        spec_slugified(s.skip(1), started)
    }
}

/// The slug of a title: lower-cased, mapped, collapsed and trimmed.
pub open spec fn spec_slug(title: Seq<char>) -> Seq<char> {
    spec_slugified(spec_mapped(spec_lowercase(title)), false)
}

/// Anything with a kept character slugifies to something.
pub proof fn lemma_slugified_nonempty(s: Seq<char>, started: bool)
    requires
        spec_has_kept(s),
    ensures
        spec_slugified(s, started).len() > 0,
    decreases s.len(),
{
    if s.len() == 0 {
    } else if s[0] != '-' {
    } else {
        let w = choose|i: int| 0 <= i < s.len() && s[i] != '-';
        assert(s.skip(1)[w - 1] == s[w]);
        assert(spec_has_kept(s.skip(1)));
        if started && spec_has_kept(s.skip(1)) {
            lemma_slugified_nonempty(s.skip(1), false);
        } else {
            lemma_slugified_nonempty(s.skip(1), started);
        }
    }
}

/// A slugified text is tidy: unless a run was already under way it never
/// starts with a dash, it never ends with one, and no two dashes stand
/// side by side.
pub proof fn lemma_slugified_tidy(s: Seq<char>, started: bool)
    ensures
        ({
            let r = spec_slugified(s, started);
            &&& r.len() > 0 && !started ==> r[0] != '-'
            &&& r.len() > 0 ==> r[r.len() - 1] != '-'
            &&& forall|i: int| 0 <= i < r.len() - 1 ==> !((#[trigger] r[i]) == '-' && r[i + 1] == '-')
        }),
    decreases s.len(),
{
    let r = spec_slugified(s, started);
    if s.len() == 0 {
    } else if s[0] != '-' {
        lemma_slugified_tidy(s.skip(1), true);
        let rest = spec_slugified(s.skip(1), true);
        assert(r == seq![s[0]] + rest);
        assert(r[0] == s[0]);
        if rest.len() == 0 {
            assert(r[r.len() - 1] == s[0]);
        } else {
            assert(r[r.len() - 1] == rest[rest.len() - 1]);
        }
        assert forall|i: int| 0 <= i < r.len() - 1 implies !((#[trigger] r[i]) == '-' && r[i + 1] == '-') by {
            if i >= 1 {
                assert(r[i] == rest[i - 1] && r[i + 1] == rest[i]);
            }
        }
    } else if started && spec_has_kept(s.skip(1)) {
        lemma_slugified_tidy(s.skip(1), false);
        lemma_slugified_nonempty(s.skip(1), false);
        let rest = spec_slugified(s.skip(1), false);
        assert(r == seq!['-'] + rest);
        assert(rest[0] != '-');
        assert(r[r.len() - 1] == rest[rest.len() - 1]);
        assert forall|i: int| 0 <= i < r.len() - 1 implies !((#[trigger] r[i]) == '-' && r[i + 1] == '-') by {
            if i == 0 {
                assert(r[1] == rest[0]);
            } else {
                assert(r[i] == rest[i - 1] && r[i + 1] == rest[i]);
            }
        }
    } else {
        lemma_slugified_tidy(s.skip(1), started);
    }
}

/// Law: a generated slug is tidy — it never starts with a dash, never
/// ends with one, and never holds two dashes side by side.
pub proof fn lemma_slug_tidy(title: Seq<char>)
    ensures
        ({
            let r = spec_slug(title);
            &&& r.len() > 0 ==> r[0] != '-' && r[r.len() - 1] != '-'
            &&& forall|i: int| 0 <= i < r.len() - 1 ==> !((#[trigger] r[i]) == '-' && r[i + 1] == '-')
        }),
{
    lemma_slugified_tidy(spec_mapped(spec_lowercase(title)), false);
}

/// Generates the slug of a title. When nothing alphanumeric remains, the
/// slug is instead the canonical text of a fresh random identifier, so
/// it is never empty.
pub fn generate_slug(title: &str) -> (r: String)
    ensures
        spec_slug(title@).len() > 0 ==> r@ == spec_slug(title@),
        spec_slug(title@).len() == 0 ==> r@.len() == 36 && (exists|id: u128|
            r@ == spec_token_text(id)),
{
    let low = lowercase(title);
    let ls = low.as_str();
    let n = ls.unicode_len();
    let ghost mapped = spec_mapped(ls@);

    // Where the last kept character sits, so the main pass can tell a
    // separating dash from a trailing one.
    let mut last_kept: Option<usize> = None;
    let mut i: usize = 0;
    while i < n
        invariant
            n == ls@.len(),
            i <= n,
            match last_kept {
                None => forall|j: int| 0 <= j < i ==> !spec_alphanumeric(#[trigger] ls@[j]),
                Some(k) => k < i && spec_alphanumeric(ls@[k as int]) && ls@[k as int] != '-' && (
                forall|j: int| k < j < i ==> !spec_alphanumeric(#[trigger] ls@[j])),
            },
        decreases n - i,
    {
        let c = ls.get_char(i);
        if alphanumeric(c) {
            last_kept = Some(i);
        }
        i = i + 1;
    }

    let mut out: Vec<char> = Vec::new();
    let mut started = false;
    let mut i: usize = 0;
    proof {
        assert(mapped.skip(0) =~= mapped);
    }
    while i < n
        invariant
            n == ls@.len(),
            i <= n,
            mapped == spec_mapped(ls@),
            out@ + spec_slugified(mapped.skip(i as int), started) == spec_slugified(
                mapped,
                false,
            ),
            match last_kept {
                None => forall|j: int| 0 <= j < n ==> !spec_alphanumeric(#[trigger] ls@[j]),
                Some(k) => k < n && spec_alphanumeric(ls@[k as int]) && ls@[k as int] != '-' && (
                forall|j: int| k < j < n ==> !spec_alphanumeric(#[trigger] ls@[j])),
            },
        decreases n - i,
    {
        let c = ls.get_char(i);
        proof {
            assert(mapped.skip(i as int)[0] == mapped[i as int]);
            assert(mapped.skip(i as int).skip(1) =~= mapped.skip(i as int + 1));
        }
        if alphanumeric(c) {
            proof {
                assert(mapped[i as int] == c && c != '-');
                assert(spec_slugified(mapped.skip(i as int), started) == seq![c]
                    + spec_slugified(mapped.skip(i as int + 1), true));
            }
            let ghost prev = out@;
            out.push(c);
            proof {
                assert(out@ =~= prev + seq![c]);
                assert((prev + seq![c]) + spec_slugified(mapped.skip(i as int + 1), true) =~= prev
                    + (seq![c] + spec_slugified(mapped.skip(i as int + 1), true)));
            }
            started = true;
        } else {
            let separates = match last_kept {
                Some(k) => k > i,
                None => false,
            };
            proof {
                assert(mapped[i as int] == '-');
                if separates {
                    let k = last_kept->Some_0 as int;
                    assert(mapped.skip(i as int + 1)[k - i - 1] == mapped[k]);
                    assert(mapped[k] == ls@[k]);
                    assert(spec_has_kept(mapped.skip(i as int + 1)));
                } else {
                    assert forall|m: int| 0 <= m < mapped.skip(i as int + 1).len() implies #[trigger]
                        mapped.skip(i as int + 1)[m] == '-' by {
                        assert(mapped.skip(i as int + 1)[m] == mapped[i + 1 + m]);
                        assert(!spec_alphanumeric(ls@[i + 1 + m]));
                    }
                    assert(!spec_has_kept(mapped.skip(i as int + 1)));
                }
            }
            if started && separates {
                proof {
                    assert(spec_slugified(mapped.skip(i as int), started) == seq!['-']
                        + spec_slugified(mapped.skip(i as int + 1), false));
                }
                let ghost prev = out@;
                out.push('-');
                proof {
                    assert(out@ =~= prev + seq!['-']);
                    assert((prev + seq!['-']) + spec_slugified(mapped.skip(i as int + 1), false)
                        =~= prev + (seq!['-'] + spec_slugified(mapped.skip(i as int + 1), false)));
                }
                started = false;
            } else {
                proof {
                    assert(spec_slugified(mapped.skip(i as int), started) == spec_slugified(
                        mapped.skip(i as int + 1),
                        started,
                    ));
                }
            }
        }
        i = i + 1;
    }
    proof {
        assert(mapped.skip(n as int) =~= Seq::<char>::empty());
        assert(out@ == spec_slugified(mapped, false));
    }

    if out.len() == 0 {
        let id = fresh_token();
        let text = format_token(id);
        proof {
            assert(text@ == spec_token_text(id));
        }
        text
    } else {
        chars_string(out)
    }
}

/// Appends a short random suffix — the first eight characters of a fresh
/// identifier's canonical text — so a colliding slug becomes unique.
pub fn make_unique_slug(base: &str) -> (r: String)
    ensures
        r@.len() == base@.len() + 9,
        exists|id: u128|
            r@ == base@ + "-"@ + spec_token_text(id).subrange(0, 8) && spec_token_text(id).len()
                == 36,
{
    let id = fresh_token();
    let text = format_token(id);
    let suffix = text.as_str().substring_char(0, 8);
    let r = String::from_str(base).concat("-").concat(suffix);
    proof {
        reveal_strlit("-");
        assert(r@ == base@ + "-"@ + spec_token_text(id).subrange(0, 8) && spec_token_text(
            id,
        ).len() == 36);
        assert(r@.len() == base@.len() + 9);
    }
    r
}

} // verus!
