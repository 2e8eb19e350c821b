//! What holds of every list of options and of every path that resolving
//! gives.

use vstd::prelude::*;
use vstd::utf8::valid_utf8;
use crate::error::ResolveError;
use crate::message::OptionView;
use crate::resolve::{apply_option, names_this_host, resolve_from, resolve_path};

verus! {

/// The option is one that resolving takes: a Uri-Host option in UTF-8
/// that names this host, or a Uri-Path option in UTF-8.
pub open spec fn option_is_taken(option: OptionView) -> bool {
    ||| option.number == 3 && valid_utf8(option.value) && names_this_host(option.value)
    ||| option.number == 11 && valid_utf8(option.value)
}

/// There is a Uri-Path option among the options.
pub open spec fn has_path_option(options: Seq<OptionView>) -> bool {
    exists|i: int| 0 <= i < options.len() && #[trigger] options[i].number == 11
}

/// The error of an option that resolving does not take.
pub open spec fn refusal_of(option: OptionView) -> ResolveError {
    if option.number != 3 && option.number != 11 {
        ResolveError::UnsupportedOption
    } else if !valid_utf8(option.value) {
        ResolveError::MalformedOption
    } else {
        ResolveError::WrongHost
    }
}

/// Resolving fails on the first option that it does not take, with the
/// error of that option.
pub proof fn lemma_first_refusal(
    options: Seq<OptionView>,
    path: Seq<char>,
    found: bool,
    i: int,
)
    requires
        0 <= i < options.len(),
        !option_is_taken(options[i]),
        forall|j: int| 0 <= j < i ==> option_is_taken(#[trigger] options[j]),
    ensures
        resolve_from(options, path, found) == Err::<Seq<char>, ResolveError>(
            refusal_of(options[i]),
        ),
    decreases options.len(),
{
    if i > 0 {
        let rest = options.drop_first();
        assert(option_is_taken(options[0]));
        assert forall|j: int| 0 <= j < i - 1 implies option_is_taken(#[trigger] rest[j]) by {
            assert(rest[j] == options[j + 1]);
        }
        assert(rest[i - 1] == options[i]);
        lemma_first_refusal(
            rest,
            apply_option(options[0], path)->Ok_0,
            found || options[0].number == 11,
            i - 1,
        );
    }
}

/// Resolving succeeds exactly when it takes every option and a segment was
/// added before or one of the options is a Uri-Path option.
pub proof fn lemma_resolves_iff(options: Seq<OptionView>, path: Seq<char>, found: bool)
    ensures
        resolve_from(options, path, found) is Ok <==> {
            &&& forall|i: int| 0 <= i < options.len() ==> option_is_taken(#[trigger] options[i])
            &&& found || has_path_option(options)
        },
        resolve_from(options, path, found) == Err::<Seq<char>, ResolveError>(
            ResolveError::NoPathFound,
        ) <==> {
            &&& forall|i: int| 0 <= i < options.len() ==> option_is_taken(#[trigger] options[i])
            &&& !found && !has_path_option(options)
        },
    decreases options.len(),
{
    if options.len() > 0 {
        let rest = options.drop_first();
        if option_is_taken(options[0]) {
            let next = apply_option(options[0], path)->Ok_0;
            let found_next = found || options[0].number == 11;
            lemma_resolves_iff(rest, next, found_next);
            assert forall|i: int| 0 <= i < rest.len() implies rest[i] == options[i + 1] by {}
            if forall|i: int| 0 <= i < rest.len() ==> option_is_taken(#[trigger] rest[i]) {
                assert forall|i: int| 0 <= i < options.len() implies option_is_taken(
                    #[trigger] options[i],
                ) by {
                    if i > 0 {
                        assert(rest[i - 1] == options[i]);
                    }
                }
            } else {
                let k = choose|k: int| 0 <= k < rest.len() && !option_is_taken(#[trigger] rest[k]);
                assert(!option_is_taken(options[k + 1]));
            }
            if has_path_option(rest) {
                let k = choose|k: int| 0 <= k < rest.len() && #[trigger] rest[k].number == 11;
                assert(options[k + 1].number == 11);
            }
            if has_path_option(options) {
                let k = choose|k: int| 0 <= k < options.len() && #[trigger] options[k].number == 11;
                if k > 0 {
                    assert(rest[k - 1].number == 11);
                }
            }
        } else {
            lemma_first_refusal(options, path, found, 0);
        }
    }
}

/// Resolving fails wherever one of the options is neither Uri-Host nor
/// Uri-Path.
pub proof fn lemma_unsupported_option_fails(root: Seq<char>, options: Seq<OptionView>, i: int)
    requires
        0 <= i < options.len(),
        options[i].number != 3,
        options[i].number != 11,
    ensures
        resolve_path(root, options) is Err,
{
    lemma_resolves_iff(options, root, false);
    assert(!option_is_taken(options[i]));
}

/// Resolving fails wherever one of the options is a Uri-Host option that
/// does not name this host.
pub proof fn lemma_wrong_host_fails(root: Seq<char>, options: Seq<OptionView>, i: int)
    requires
        0 <= i < options.len(),
        options[i].number == 3,
        !names_this_host(options[i].value),
    ensures
        resolve_path(root, options) is Err,
{
    lemma_resolves_iff(options, root, false);
    assert(!option_is_taken(options[i]));
}

/// A path that resolving gives starts with the path it started from, and
/// is longer where a Uri-Path option is among the options.
pub proof fn lemma_path_extends(options: Seq<OptionView>, path: Seq<char>, found: bool)
    ensures
        resolve_from(options, path, found) matches Ok(full) ==> {
            &&& path.len() <= full.len()
            &&& full.subrange(0, path.len() as int) == path
            &&& has_path_option(options) ==> path.len() < full.len()
        },
    decreases options.len(),
{
    reveal_strlit("/");
    if options.len() > 0 {
        match apply_option(options[0], path) {
            Err(_) => {},
            Ok(next) => {
                let rest = options.drop_first();
                lemma_path_extends(rest, next, found || options[0].number == 11);
                match resolve_from(rest, next, found || options[0].number == 11) {
                    Err(_) => {},
                    Ok(full) => {
                        assert(next.subrange(0, path.len() as int) =~= path);
                        assert(full.subrange(0, path.len() as int) =~= full.subrange(
                            0,
                            next.len() as int,
                        ).subrange(0, path.len() as int));
                        if has_path_option(options) && options[0].number != 11 {
                            let k = choose|k: int|
                                0 <= k < options.len() && #[trigger] options[k].number == 11;
                            assert(rest[k - 1].number == 11);
                        }
                    },
                }
            },
        }
    } else {
        assert(path.subrange(0, path.len() as int) =~= path);
    }
}

/// A path that resolving gives lies below the root: it starts with the
/// root and goes on.
pub proof fn lemma_path_below_root(root: Seq<char>, options: Seq<OptionView>)
    ensures
        resolve_path(root, options) matches Ok(path) ==> {
            &&& root.len() < path.len()
            &&& path.subrange(0, root.len() as int) == root
        },
{
    lemma_path_extends(options, root, false);
    lemma_resolves_iff(options, root, false);
}

} // verus!
