//! The file-name sanitizer: every character outside the allowed set is deleted.

use vstd::prelude::*;

verus! {

/// The characters that survive sanitizing: ASCII letters, ASCII digits,
/// underscore and hyphen.
pub open spec fn is_allowed(c: char) -> bool {
    ||| 'a' <= c <= 'z'
    ||| 'A' <= c <= 'Z'
    ||| '0' <= c <= '9'
    ||| c == '_'
    ||| c == '-'
}

/// What is left of `name` when every character that is not allowed is deleted.
pub open spec fn sanitized(name: Seq<char>) -> Seq<char> {
    name.filter(|c: char| is_allowed(c))
}

/// The regular expression that matches one character outside the allowed set.
pub open spec fn disallowed_pattern() -> Seq<char> {
    "[^a-zA-Z0-9_-]"@
}

/// `regex::Regex::new` on `pattern`, then `Regex::replace_all` on `text` with
/// the replacement `rep`. Stated only for the pattern of one disallowed
/// character and the empty replacement: that pattern compiles, each of its
/// matches is exactly one character outside the class, the matches do not
/// overlap, and the empty replacement holds no `$`, so what comes back is
/// `text` without those characters, the others in their order.
#[verifier::external_body]
fn regex_replace_all(pattern: &str, text: &str, rep: &str) -> (res: String)
    requires
        pattern@ == disallowed_pattern(),
        rep@.len() == 0,
    ensures
        res@ == sanitized(text@),
{
    regex::Regex::new(pattern).unwrap().replace_all(text, rep).into_owned()
}

/// Deletes from `filename` every character that is not allowed. The whole
/// name is taken as it stands: the dot before an extension is deleted like any
/// other character that is not allowed.
pub fn char_replace(filename: &str) -> (res: String)
    ensures
        res@ == sanitized(filename@),
{
    proof {
        reveal_strlit("");
    }
    regex_replace_all("[^a-zA-Z0-9_-]", filename, "")
}

/// Whether every character of `name` is allowed.
pub open spec fn all_allowed(name: Seq<char>) -> bool {
    forall|i: int| 0 <= i < name.len() ==> is_allowed(#[trigger] name[i])
}

/// Whether `at` lists, in rising order, positions of `full` at which the
/// characters of `sub` stand, one position for each character.
pub open spec fn embeds_at(sub: Seq<char>, full: Seq<char>, at: Seq<int>) -> bool {
    &&& at.len() == sub.len()
    &&& forall|i: int| 0 <= i < at.len() ==> 0 <= #[trigger] at[i] < full.len()
    &&& forall|i: int| 0 <= i < at.len() ==> full[#[trigger] at[i]] == sub[i]
    &&& forall|i: int, j: int| 0 <= i < j < at.len() ==> #[trigger] at[i] < #[trigger] at[j]
}

/// Whether `sub` can be had from `full` by deleting characters, the others
/// keeping their order.
pub open spec fn is_subsequence(sub: Seq<char>, full: Seq<char>) -> bool {
    exists|at: Seq<int>| embeds_at(sub, full, at)
}

/// The positions of the allowed characters of `name`, in rising order.
pub open spec fn kept_positions(name: Seq<char>) -> Seq<int>
    decreases name.len(),
{
    if name.len() == 0 {
        Seq::empty()
    } else if is_allowed(name.last()) {
        kept_positions(name.drop_last()).push(name.len() - 1)
    } else {
        kept_positions(name.drop_last())
    }
}

/// Sanitizing the empty name gives the empty name; a name with one more
/// character at its end gives that character after the rest, if it is allowed,
/// and the rest alone, if it is not.
pub proof fn lemma_sanitized_unfold(name: Seq<char>)
    ensures
        name.len() == 0 ==> sanitized(name) == Seq::<char>::empty(),
        name.len() > 0 && is_allowed(name.last()) ==> sanitized(name) == sanitized(
            name.drop_last(),
        ).push(name.last()),
        name.len() > 0 && !is_allowed(name.last()) ==> sanitized(name) == sanitized(
            name.drop_last(),
        ),
{
    reveal(Seq::filter);
    if name.len() == 0 {
        assert(sanitized(name) =~= Seq::<char>::empty());
    }
}

/// The sanitized name consists of allowed characters only.
pub proof fn lemma_sanitized_all_allowed(name: Seq<char>)
    ensures
        all_allowed(sanitized(name)),
    decreases name.len(),
{
    lemma_sanitized_unfold(name);
    if name.len() > 0 {
        lemma_sanitized_all_allowed(name.drop_last());
    }
}

/// A name of allowed characters only is left as it is.
pub proof fn lemma_allowed_name_unchanged(name: Seq<char>)
    requires
        all_allowed(name),
    ensures
        sanitized(name) == name,
    decreases name.len(),
{
    lemma_sanitized_unfold(name);
    if name.len() > 0 {
        let rest = name.drop_last();
        assert(all_allowed(rest)) by {
            assert forall|i: int| 0 <= i < rest.len() implies is_allowed(#[trigger] rest[i]) by {
                assert(rest[i] == name[i]);
            }
        }
        lemma_allowed_name_unchanged(rest);
        assert(is_allowed(name[name.len() - 1]));
        assert(rest.push(name.last()) =~= name);
    }
}

/// Sanitizing what was sanitized changes nothing.
pub proof fn lemma_sanitized_twice(name: Seq<char>)
    ensures
        sanitized(sanitized(name)) == sanitized(name),
{
    lemma_sanitized_all_allowed(name);
    lemma_allowed_name_unchanged(sanitized(name));
}

/// The sanitized name stands in the name at the positions of its allowed
/// characters.
pub proof fn lemma_sanitized_embeds(name: Seq<char>)
    ensures
        embeds_at(sanitized(name), name, kept_positions(name)),
    decreases name.len(),
{
    lemma_sanitized_unfold(name);
    if name.len() > 0 {
        let rest = name.drop_last();
        lemma_sanitized_embeds(rest);
        let at = kept_positions(name);
        let sub = sanitized(name);
        assert forall|i: int| 0 <= i < at.len() implies 0 <= #[trigger] at[i] < name.len()
            && name[at[i]] == sub[i] by {
            if i < kept_positions(rest).len() {
                assert(at[i] == kept_positions(rest)[i]);
                assert(rest[at[i]] == name[at[i]]);
            }
        }
        assert forall|i: int, j: int| 0 <= i < j < at.len() implies #[trigger] at[i]
            < #[trigger] at[j] by {
            assert(at[i] == kept_positions(rest)[i]);
            if j < kept_positions(rest).len() {
                assert(at[j] == kept_positions(rest)[j]);
            }
        }
    }
}

/// The sanitized name is had from the name by deleting characters: those that
/// stay keep their order.
pub proof fn lemma_sanitized_is_subsequence(name: Seq<char>)
    ensures
        is_subsequence(sanitized(name), name),
        sanitized(name).len() <= name.len(),
{
    lemma_sanitized_embeds(name);
    name.lemma_filter_len(|c: char| is_allowed(c));
}

} // verus!
