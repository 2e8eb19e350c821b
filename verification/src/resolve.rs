//! From the options of a request to the path of the resource below the
//! storage root.
//!
//! A Uri-Host option has to name this host; every Uri-Path option adds one
//! segment, in the order of the options; any other option is refused.

use vstd::prelude::*;
use vstd::utf8::{decode_utf8, encode_utf8, valid_utf8};
use crate::error::ResolveError;
use crate::message::{options_view, CoapOption, OptionView};
use crate::message::{OPTION_URI_HOST, OPTION_URI_PATH};

verus! {

/// `needle` stands in `hay` at index `at`.
pub open spec fn occurs_at(needle: Seq<u8>, hay: Seq<u8>, at: int) -> bool {
    &&& 0 <= at
    &&& at + needle.len() <= hay.len()
    &&& hay.subrange(at, at + needle.len()) == needle
}

/// `needle` stands somewhere in `hay`.
pub open spec fn occurs_in(needle: Seq<u8>, hay: Seq<u8>) -> bool {
    exists|at: int| occurs_at(needle, hay, at)
}

/// The name of the loopback host, in UTF-8.
pub open spec fn loopback_name() -> Seq<u8> {
    encode_utf8("localhost"@)
}

/// The address of the loopback host, in UTF-8.
pub open spec fn loopback_address() -> Seq<u8> {
    encode_utf8("127.0.0.1"@)
}

/// A host value names this host: it holds the loopback name or the
/// loopback address.
pub open spec fn names_this_host(host: Seq<u8>) -> bool {
    occurs_in(loopback_name(), host) || occurs_in(loopback_address(), host)
}

/// What one option does to the path gathered so far.
pub open spec fn apply_option(option: OptionView, path: Seq<char>) -> Result<
    Seq<char>,
    ResolveError,
> {
    if option.number == 3 {
        if !valid_utf8(option.value) {
            Err(ResolveError::MalformedOption)
        } else if !names_this_host(option.value) {
            Err(ResolveError::WrongHost)
        } else {
            Ok(path)
        }
    } else if option.number == 11 {
        if !valid_utf8(option.value) {
            Err(ResolveError::MalformedOption)
        } else {
            Ok(path + "/"@ + decode_utf8(option.value))
        }
    } else {
        Err(ResolveError::UnsupportedOption)
    }
}

/// The path that the options lead to from `path`; `found` says whether a
/// segment has been added already.
pub open spec fn resolve_from(options: Seq<OptionView>, path: Seq<char>, found: bool) -> Result<
    Seq<char>,
    ResolveError,
>
    decreases options.len(),
{
    if options.len() == 0 {
        if found {
            Ok(path)
        } else {
            Err(ResolveError::NoPathFound)
        }
    } else {
        match apply_option(options[0], path) {
            Err(e) => Err(e),
            Ok(next) => resolve_from(
                options.drop_first(),
                next,
                found || options[0].number == 11,
            ),
        }
    }
}

/// The path of the resource that the options name below `root`.
pub open spec fn resolve_path(root: Seq<char>, options: Seq<OptionView>) -> Result<
    Seq<char>,
    ResolveError,
> {
    resolve_from(options, root, false)
}

/// `String::from_utf8`, with the error dropped. It gives a text exactly
/// when the bytes are well-formed UTF-8, and the text is then the one that
/// these bytes encode.
#[verifier::external_body]
fn text_of(bytes: Vec<u8>) -> (text: Option<String>)
    ensures
        text is Some <==> valid_utf8(bytes@),
        text matches Some(s) ==> s@ == decode_utf8(bytes@),
{
    String::from_utf8(bytes).ok()
}

/// Whether `needle` stands in `hay` at index `at`.
fn found_at(needle: &[u8], hay: &[u8], at: usize) -> (found: bool)
    requires
        at + needle.len() <= hay.len(),
    ensures
        found == occurs_at(needle@, hay@, at as int),
{
    let mut k: usize = 0;
    while k < needle.len()
        invariant
            k <= needle.len(),
            at + needle.len() <= hay.len(),
            forall|j: int| 0 <= j < k ==> hay@[at + j] == needle@[j],
        decreases needle.len() - k,
    {
        if hay[at + k] != needle[k] {
            return false;
        }
        k += 1;
    }
    assert(hay@.subrange(at as int, at + needle@.len()) =~= needle@);
    true
}

/// Whether `needle` stands somewhere in `hay`.
pub fn contains_bytes(hay: &[u8], needle: &[u8]) -> (found: bool)
    ensures
        found == occurs_in(needle@, hay@),
{
    if needle.len() > hay.len() {
        return false;
    }
    let last = hay.len() - needle.len();
    let mut at: usize = 0;
    while at < last
        invariant
            last == hay@.len() - needle@.len(),
            at <= last,
            forall|j: int| 0 <= j < at ==> !occurs_at(needle@, hay@, j),
        decreases last - at,
    {
        if found_at(needle, hay, at) {
            return true;
        }
        at += 1;
    }
    found_at(needle, hay, last)
}

/// Whether a host value names this host.
pub fn is_this_host(host: &[u8]) -> (ok: bool)
    ensures
        ok == names_this_host(host@),
{
    contains_bytes(host, "localhost".as_bytes()) || contains_bytes(host, "127.0.0.1".as_bytes())
}

/// The storage root that belongs to a working directory: its `Storage`
/// directory.
pub fn get_storage_dir_as_string(working_dir: &str) -> (path: String)
    ensures
        path@ == working_dir@ + "/Storage"@,
{
    let mut path = working_dir.to_owned();
    path.append("/Storage");
    path
}

/// Maps the options of a request to the path of the resource below
/// `storage_root`.
///
/// The options are taken in order. A Uri-Host option has to be UTF-8 and to
/// name this host. A Uri-Path option has to be UTF-8 and adds `/` and its
/// value to the path. Any other option is refused. Without a Uri-Path
/// option there is no path.
pub fn parse_options_to_path(storage_root: &str, option_list: &Vec<CoapOption>) -> (r: Result<
    String,
    ResolveError,
>)
    ensures
        match r {
            Ok(path) => resolve_path(storage_root@, options_view(option_list@)) == Ok::<
                Seq<char>,
                ResolveError,
            >(path@),
            Err(e) => resolve_path(storage_root@, options_view(option_list@)) == Err::<
                Seq<char>,
                ResolveError,
            >(e),
        },
{
    let mut file_location = storage_root.to_owned();
    let mut found = false;
    let mut i: usize = 0;
    let ghost options = options_view(option_list@);
    assert(options.skip(0) =~= options);
    while i < option_list.len()
        invariant
            i <= option_list@.len(),
            options == options_view(option_list@),
            resolve_path(storage_root@, options) == resolve_from(
                options.skip(i as int),
                file_location@,
                found,
            ),
        decreases option_list@.len() - i,
    {
        let option = &option_list[i];
        assert(options.skip(i as int).drop_first() =~= options.skip(i + 1));
        if option.number == OPTION_URI_HOST {
            if text_of(option.value.clone()).is_none() {
                return Err(ResolveError::MalformedOption);
            }
            if !is_this_host(option.value.as_slice()) {
                return Err(ResolveError::WrongHost);
            }
        } else if option.number == OPTION_URI_PATH {
            match text_of(option.value.clone()) {
                None => {
                    return Err(ResolveError::MalformedOption);
                },
                Some(segment) => {
                    file_location.append("/");
                    file_location.append(segment.as_str());
                    found = true;
                },
            }
        } else {
            return Err(ResolveError::UnsupportedOption);
        }
        i += 1;
    }
    if found {
        Ok(file_location)
    } else {
        Err(ResolveError::NoPathFound)
    }
}

} // verus!
