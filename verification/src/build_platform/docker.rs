//! Which build arguments a Dockerfile uses.

use crate::errors::{CommandError, CommandErrorView};
use crate::text::{chars_of, contains, first_index, lemma_texts_push, occurs_in, text_of, texts};
use vstd::prelude::*;
use vstd::string::*;
use vstd::utf8::{decode_utf8, valid_utf8};

verus! {

/// The text that `bytes` encode in UTF-8, where they encode one.
///
/// Trusted: `std::str::from_utf8` succeeds exactly on well-formed UTF-8 and
/// gives the text that the bytes encode.
#[verifier::external_body]
pub(crate) fn utf8_text(bytes: &Vec<u8>) -> (r: Option<String>)
    ensures
        r is Some == valid_utf8(bytes@),
        r is Some ==> r->0@ == decode_utf8(bytes@),
{
    match std::str::from_utf8(bytes.as_slice()) {
        Ok(s) => Some(s.to_string()),
        Err(_) => None,
    }
}

/// The name of the variable in an assignment `KEY=VALUE`: what stands before
/// the first `=`, or everything where there is none.
pub open spec fn key_of(assignment: Seq<char>) -> Seq<char> {
    assignment.take(first_index(assignment, '='))
}

/// The name of the variable in an assignment `KEY=VALUE`.
pub fn assignment_key(assignment: &str) -> (r: String)
    ensures
        r@ == key_of(assignment@),
{
    let chars = chars_of(assignment);
    let n: usize = chars.len();
    let mut i: usize = 0;
    while i < n && chars[i] != '='
        invariant
            i <= n == chars.len(),
            forall|k: int| 0 <= k < i ==> chars@[k] != '=',
        decreases n - i,
    {
        i = i + 1;
    }
    proof {
        crate::text::lemma_first_index_is(chars@, '=', i as int);
    }
    text_of(&chars, 0, i)
}

/// Whether the Dockerfile `content` uses the variable of `assignment`: whether
/// the name of the variable occurs in it.
pub open spec fn is_used(assignment: Seq<char>, content: Seq<char>) -> bool {
    occurs_in(key_of(assignment), content)
}

/// The assignments whose variable the Dockerfile `content` uses, in their
/// order.
pub open spec fn used_args(assignments: Seq<Seq<char>>, content: Seq<char>) -> Seq<Seq<char>> {
    assignments.filter(|a: Seq<char>| is_used(a, content))
}

/// The message of the error for a Dockerfile that is not text.
pub open spec fn not_text_error() -> CommandErrorView {
    CommandErrorView {
        message: "Dockerfile content is not valid UTF-8"@,
        message_safe: Some("Cannot read Dockerfile content."@),
    }
}

/// What `match_used_env_var_args` gives for a Dockerfile with these bytes.
pub open spec fn spec_match_used_env_var_args(
    assignments: Seq<Seq<char>>,
    dockerfile_content: Seq<u8>,
) -> Result<Seq<Seq<char>>, CommandErrorView> {
    if valid_utf8(dockerfile_content) {
        Ok(used_args(assignments, decode_utf8(dockerfile_content)))
    } else {
        Err(not_text_error())
    }
}

/// Whether `r` is `expected`, content for content.
pub open spec fn args_result_is(
    r: Result<Vec<String>, CommandError>,
    expected: Result<Seq<Seq<char>>, CommandErrorView>,
) -> bool {
    match (r, expected) {
        (Ok(v), Ok(e)) => texts(v@) == e,
        (Err(v), Err(e)) => v@ == e,
        _ => false,
    }
}

/// Keeps, of the assignments `KEY=VALUE` in `env_var_args`, those whose
/// variable the Dockerfile uses, in their order and unchanged. Fails where the
/// Dockerfile is not text.
pub fn match_used_env_var_args(env_var_args: Vec<String>, dockerfile_content: Vec<u8>) -> (r:
    Result<Vec<String>, CommandError>)
    ensures
        args_result_is(
            r,
            spec_match_used_env_var_args(texts(env_var_args@), dockerfile_content@),
        ),
{
    let content = match utf8_text(&dockerfile_content) {
        Some(text) => text,
        None => {
            return Err(
                CommandError::new(
                    String::from_str("Dockerfile content is not valid UTF-8"),
                    Some(String::from_str("Cannot read Dockerfile content.")),
                ),
            );
        },
    };
    let mut kept: Vec<String> = Vec::new();
    let n: usize = env_var_args.len();
    let mut i: usize = 0;
    let ghost all = texts(env_var_args@);
    let ghost pred = |a: Seq<char>| is_used(a, content@);
    assert(all.take(0) =~= Seq::<Seq<char>>::empty());
    assert(texts(kept@) =~= Seq::<Seq<char>>::empty());
    while i < n
        invariant
            i <= n == env_var_args.len(),
            all == texts(env_var_args@),
            pred == |a: Seq<char>| is_used(a, content@),
            texts(kept@) == all.take(i as int).filter(pred),
        decreases n - i,
    {
        let key = assignment_key(env_var_args[i].as_str());
        let used = contains(content.as_str(), key.as_str());
        proof {
            assert(all.take(i + 1).drop_last() =~= all.take(i as int));
            assert(all.take(i + 1).last() == env_var_args@[i as int]@);
            reveal(Seq::filter);
        }
        if used {
            let arg = env_var_args[i].clone();
            proof {
                lemma_texts_push(kept@, arg);
            }
            kept.push(arg);
        }
        i = i + 1;
    }
    assert(all.take(n as int) =~= all);
    Ok(kept)
}

/// A build argument is kept exactly when it is among the arguments given and
/// the Dockerfile uses its variable: what the Dockerfile does not use is left
/// out, and what it uses stays, as it was given.
pub proof fn lemma_kept_exactly_the_used(
    assignments: Seq<Seq<char>>,
    content: Seq<char>,
    a: Seq<char>,
)
    ensures
        used_args(assignments, content).contains(a) <==> (assignments.contains(a) && is_used(
            a,
            content,
        )),
{
    crate::text::lemma_filter_contains(assignments, |x: Seq<char>| is_used(x, content), a);
}

} // verus!
