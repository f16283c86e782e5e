//! The patch-bay manager: a bay is a named directory holding at most one
//! patch file. The decisions — which bay, which file name, which entries
//! count as patches, what instruction to send — are computed here over plain
//! values; the caller performs the directory creation, listing and deletion
//! and feeds the results back in.

use crate::config::Options;
use crate::extension::system::spec_reply;
use crate::extension::TranslationError;
use crate::labeler::LabeledMessage;
use crate::osc::{Arg, Message};
use crate::text::{
    lemma_scan_char_bounds, skip_char_back, skip_char_back_exec, skip_other_back,
    skip_other_back_exec,
};
use vstd::prelude::*;

verus! {

broadcast use vstd::seq::group_seq_axioms;

/// Scanning left from position `i`, the end of the last real path segment:
/// trailing separators and current-directory (`.`) segments are skipped.
pub open spec fn spec_last_segment_end(s: Seq<char>, i: int) -> int
    decreases i,
    via spec_last_segment_end_decreases
{
    let end = skip_char_back(s, i, '/');
    let start = skip_other_back(s, end, '/');
    if start < end && s.subrange(start, end) == "."@ {
        spec_last_segment_end(s, start)
    } else {
        end
    }
}

#[via_fn]
proof fn spec_last_segment_end_decreases(s: Seq<char>, i: int) {
    if i >= 0 {
        lemma_scan_char_bounds(s, i, '/');
        lemma_scan_char_bounds(s, skip_char_back(s, i, '/'), '/');
    }
}

/// The file-name component of a path, as the platform path type reads it:
/// the last path segment, ignoring trailing separators and
/// current-directory (`.`) segments. A path whose last segment is the
/// parent directory (`..`), or that has no segment at all, has none.
pub open spec fn spec_file_name(s: Seq<char>) -> Option<Seq<char>> {
    let end = spec_last_segment_end(s, s.len() as int);
    let start = skip_other_back(s, end, '/');
    if end == start || s.subrange(start, end) == ".."@ {
        None
    } else {
        Some(s.subrange(start, end))
    }
}

/// Extracts the file-name component, exactly as `spec_file_name` states.
pub fn file_name(s: &str) -> (r: Option<String>)
    ensures
        r matches Some(n) ==> spec_file_name(s@) == Some(n@),
        (r is None) == (spec_file_name(s@) is None),
{
    let len = s.unicode_len();
    let mut i = len;
    let mut end = skip_char_back_exec(s, i, '/');
    let mut start = skip_other_back_exec(s, end, '/');
    while start < end && end - start == 1 && s.get_char(start) == '.'
        invariant
            start <= end <= i <= len,
            len == s@.len(),
            end == skip_char_back(s@, i as int, '/'),
            start == skip_other_back(s@, end as int, '/'),
            spec_last_segment_end(s@, len as int) == spec_last_segment_end(s@, i as int),
        decreases i,
    {
        proof {
            reveal_strlit(".");
            assert(s@.subrange(start as int, end as int) =~= "."@);
        }
        i = start;
        end = skip_char_back_exec(s, i, '/');
        start = skip_other_back_exec(s, end, '/');
    }
    proof {
        reveal_strlit(".");
        reveal_strlit("..");
        if start < end && s@.subrange(start as int, end as int) == "."@ {
            assert(s@.subrange(start as int, end as int).len() == 1);
            assert(s@[start as int] == "."@[0]);
        }
        assert(spec_last_segment_end(s@, len as int) == end);
    }
    if end == start {
        return None;
    }
    if end - start == 2 && s.get_char(start) == '.' && s.get_char(start + 1) == '.' {
        assert(s@.subrange(start as int, end as int) =~= ".."@);
        return None;
    }
    proof {
        if s@.subrange(start as int, end as int) == ".."@ {
            assert(s@.subrange(start as int, end as int).len() == 2);
            assert(s@[start as int] == ".."@[0]);
            assert(s@[start + 1] == ".."@[1]);
        }
    }
    Some(s.substring_char(start, end).to_owned())
}

/// The name ends in the patch-file extension: a final `.fxp` with a
/// nonempty stem before the dot.
pub open spec fn spec_has_fxp_ext(name: Seq<char>) -> bool {
    let d = skip_other_back(name, name.len() as int, '.');
    d >= 2 && name.subrange(d, name.len() as int) == "fxp"@
}

/// The stem of a patch file name: what precedes the final dot.
pub open spec fn spec_fxp_stem(name: Seq<char>) -> Option<Seq<char>> {
    let d = skip_other_back(name, name.len() as int, '.');
    if d >= 2 && name.subrange(d, name.len() as int) == "fxp"@ {
        Some(name.subrange(0, d - 1))
    } else {
        None
    }
}

/// Whether the name carries the patch-file extension.
pub fn has_fxp_ext(name: &str) -> (r: bool)
    ensures
        r == spec_has_fxp_ext(name@),
{
    proof {
        reveal_strlit("fxp");
    }
    let len = name.unicode_len();
    let d = skip_other_back_exec(name, len, '.');
    d >= 2 && len - d == 3 && crate::text::matches_at(name, "fxp", d)
}

/// The stem of a patch file name, exactly as `spec_fxp_stem` states.
pub fn fxp_stem(name: &str) -> (r: Option<String>)
    ensures
        r matches Some(stem) ==> spec_fxp_stem(name@) == Some(stem@),
        (r is None) == (spec_fxp_stem(name@) is None),
{
    proof {
        reveal_strlit("fxp");
    }
    let len = name.unicode_len();
    let d = skip_other_back_exec(name, len, '.');
    if d >= 2 && len - d == 3 && crate::text::matches_at(name, "fxp", d) {
        Some(name.substring_char(0, d - 1).to_owned())
    } else {
        None
    }
}

/// The bay name: the first argument, which must be a string.
pub fn get_patchbay(labeled: &LabeledMessage) -> (r: Result<String, TranslationError>)
    ensures
        r matches Ok(s) ==> labeled.message.args@.len() > 0 && labeled.message.args@[0] is Str
            && s@ == labeled.message.args@[0]->Str_0@,
        r matches Err(e) ==> e is MissingArgument && (labeled.message.args@.len() == 0 || !(
        labeled.message.args@[0] is Str)),
{
    if labeled.message.args.len() == 0 {
        return Err(TranslationError::MissingArgument(
            "not enough arguments given, needs 2".to_owned(),
        ));
    }
    match &labeled.message.args[0] {
        Arg::Str(s) => Ok(s.clone()),
        _ => Err(TranslationError::MissingArgument(
            "not enough arguments given, needs 2".to_owned(),
        )),
    }
}

/// The patch name: the file-name component of the second argument, which
/// must be a string naming a path with a file-name component.
pub fn get_patchname(labeled: &LabeledMessage) -> (r: Result<String, TranslationError>)
    ensures
        r matches Ok(s) ==> labeled.message.args@.len() > 1 && labeled.message.args@[1] is Str
            && spec_file_name(labeled.message.args@[1]->Str_0@) == Some(s@),
        r matches Err(e) ==> match e {
            TranslationError::MissingArgument(_) => labeled.message.args@.len() <= 1 || !(
            labeled.message.args@[1] is Str),
            TranslationError::NotFound(_) => labeled.message.args@.len() > 1
                && labeled.message.args@[1] is Str && spec_file_name(
                labeled.message.args@[1]->Str_0@,
            ) is None,
            _ => false,
        },
{
    if labeled.message.args.len() <= 1 {
        return Err(TranslationError::MissingArgument(
            "second argument not found or not a string".to_owned(),
        ));
    }
    match &labeled.message.args[1] {
        Arg::Str(s) => match file_name(s.as_str()) {
            Some(n) => Ok(n),
            None => Err(TranslationError::NotFound(
                "file name not found in the path".to_owned(),
            )),
        },
        _ => Err(TranslationError::MissingArgument(
            "second argument not found or not a string".to_owned(),
        )),
    }
}

/// The resolved bay directory: the base directory, the cache path fragment
/// (without a leading separator), and the bay name, each separated and
/// terminated by `/`.
pub open spec fn spec_bay_dir(base: Seq<char>, cache: Seq<char>, bay: Seq<char>) -> Seq<char> {
    let sub = if cache.len() > 0 && cache[0] == '/' {
        cache.drop_first()
    } else {
        cache
    };
    base + "/"@ + sub + "/"@ + bay + "/"@
}

/// Joins the bay directory path, exactly as `spec_bay_dir` states.
pub fn bay_dir(base: &str, cache: &str, bay: &str) -> (r: String)
    ensures
        r@ == spec_bay_dir(base@, cache@, bay@),
{
    let mut dir = base.to_owned();
    dir.append("/");
    let cache_len = cache.unicode_len();
    if cache_len > 0 && cache.get_char(0) == '/' {
        let stripped = cache.substring_char(1, cache_len);
        assert(stripped@ =~= cache@.drop_first());
        dir.append(stripped);
    } else {
        dir.append(cache);
    }
    dir.append("/");
    dir.append(bay);
    dir.append("/");
    dir
}

/// Relies on `dirs::config_local_dir`: the platform per-user configuration
/// directory, if the platform defines one, as a path string.
#[verifier::external_body]
fn config_local_dir_path() -> (r: Option<String>) {
    dirs::config_local_dir().map(|p| p.to_string_lossy().into_owned())
}

/// Resolves the bay directory under the platform configuration directory;
/// fails only where the platform defines no such directory.
pub fn resolve_bay_dir(options: &Options, bay: &str) -> (r: Result<String, TranslationError>)
    ensures
        r matches Ok(d) ==> exists|base: Seq<char>|
            d@ == spec_bay_dir(base, options.patch_cache_path@, bay@),
        r matches Err(e) ==> e is NotFound,
{
    match config_local_dir_path() {
        Some(base) => {
            let d = bay_dir(base.as_str(), options.patch_cache_path.as_str(), bay);
            proof {
                let ghost b = base@;
                assert(d@ == spec_bay_dir(b, options.patch_cache_path@, bay@));
            }
            Ok(d)
        },
        None => Err(TranslationError::NotFound(
            "could not find the configuration directory".to_owned(),
        )),
    }
}

/// The index of the first directory entry with the patch-file extension.
pub fn find_fxp(listing: &Vec<String>) -> (r: Option<usize>)
    ensures
        r matches Some(i) ==> i < listing@.len() && spec_has_fxp_ext(listing@[i as int]@)
            && forall|j: int| 0 <= j < i ==> !spec_has_fxp_ext(#[trigger] listing@[j]@),
        r is None ==> forall|j: int|
            0 <= j < listing@.len() ==> !spec_has_fxp_ext(#[trigger] listing@[j]@),
{
    let n = listing.len();
    let mut i: usize = 0;
    while i < n
        invariant
            n == listing@.len(),
            i <= n,
            forall|j: int| 0 <= j < i ==> !spec_has_fxp_ext(#[trigger] listing@[j]@),
        decreases n - i,
    {
        if has_fxp_ext(listing[i].as_str()) {
            return Some(i);
        }
        i += 1;
    }
    None
}

/// The directory entries with the patch-file extension, in order.
pub open spec fn spec_fxp_entries(l: Seq<String>) -> Seq<String>
    decreases l.len(),
{
    if l.len() == 0 {
        Seq::empty()
    } else if spec_has_fxp_ext(l[0]@) {
        seq![l[0]] + spec_fxp_entries(l.drop_first())
    } else {
        spec_fxp_entries(l.drop_first())
    }
}

/// Collects the entries with the patch-file extension: the files a save
/// clears out of the bay.
pub fn fxp_entries(listing: &Vec<String>) -> (r: Vec<String>)
    ensures
        r@ == spec_fxp_entries(listing@),
{
    let n = listing.len();
    let mut out: Vec<String> = Vec::new();
    let mut i: usize = 0;
    assert(listing@.skip(0) =~= listing@);
    while i < n
        invariant
            n == listing@.len(),
            i <= n,
            spec_fxp_entries(listing@) == out@ + spec_fxp_entries(listing@.skip(i as int)),
        decreases n - i,
    {
        assert(listing@.skip(i as int)[0] == listing@[i as int]);
        assert(listing@.skip(i as int).drop_first() =~= listing@.skip(i + 1));
        let ghost before = out@;
        if has_fxp_ext(listing[i].as_str()) {
            out.push(listing[i].clone());
            assert(out@ =~= before + seq![listing@[i as int]]);
            assert(before + (seq![listing@[i as int]] + spec_fxp_entries(listing@.skip(i + 1)))
                =~= out@ + spec_fxp_entries(listing@.skip(i + 1)));
        }
        i += 1;
    }
    assert(listing@.skip(n as int) =~= Seq::<String>::empty());
    assert(out@ =~= out@ + spec_fxp_entries(listing@.skip(n as int)));
    out
}

/// Answers a bay-occupancy check: a reply back to the sender, at the check
/// address suffixed with the bay name, whose single argument says whether
/// some entry of the bay carries the patch-file extension.
pub fn check_patchbay(labeled: LabeledMessage, listing: &Vec<String>) -> (r: Result<
    LabeledMessage,
    TranslationError,
>)
    ensures
        (labeled.message.args@.len() == 0 || !(labeled.message.args@[0] is Str)) ==> (r matches Err(
            e,
        ) && e is MissingArgument),
        labeled.message.args@.len() > 0 && labeled.message.args@[0] is Str ==> (r matches Ok(m)
            && spec_reply(labeled, m, "/sys/patchbay/check/"@ + labeled.message.args@[0]->Str_0@)
            && m.message.args@[0] == Arg::Bool(
            exists|j: int| 0 <= j < listing@.len() && spec_has_fxp_ext(#[trigger] listing@[j]@),
        )),
{
    let bay = get_patchbay(&labeled)?;
    let occupied = match find_fxp(listing) {
        Some(_) => true,
        None => false,
    };
    let mut addr = "/sys/patchbay/check/".to_owned();
    addr.append(bay.as_str());
    Ok(crate::extension::system::build_return_message(labeled, addr, Arg::Bool(occupied)))
}

/// Builds the outbound load instruction: the destination is kept, the
/// address is the fixed load address, and the single argument is the bay
/// directory joined with the stem of the first patch file found there.
/// Fails when the bay argument is malformed or no patch file is present.
pub fn load_patch(labeled: LabeledMessage, dir: &str, listing: &Vec<String>) -> (r: Result<
    LabeledMessage,
    TranslationError,
>)
    ensures
        (labeled.message.args@.len() == 0 || !(labeled.message.args@[0] is Str)) ==> (r matches Err(
            e,
        ) && e is NotFound),
        labeled.message.args@.len() > 0 && labeled.message.args@[0] is Str ==> match r {
            Ok(m) => {
                &&& m.peer_recv == labeled.peer_recv
                &&& m.peer_send == labeled.peer_send
                &&& m.message.addr@ == "/patch/load"@
                &&& m.message.args@.len() == 1
                &&& m.message.args@[0] is Str
                &&& exists|i: int|
                    0 <= i < listing@.len() && spec_has_fxp_ext(#[trigger] listing@[i]@) && (forall|
                        j: int,
                    | 0 <= j < i ==> !spec_has_fxp_ext(#[trigger] listing@[j]@))
                        && m.message.args@[0]->Str_0@ == dir@ + spec_fxp_stem(listing@[i]@).unwrap()
            },
            Err(e) => e is NotFound && forall|j: int|
                0 <= j < listing@.len() ==> !spec_has_fxp_ext(#[trigger] listing@[j]@),
        },
{
    let _bay = match get_patchbay(&labeled) {
        Ok(b) => b,
        Err(_) => {
            return Err(TranslationError::NotFound(
                "bay argument not found or not a string".to_owned(),
            ));
        },
    };
    let found = match find_fxp(listing) {
        Some(i) => i,
        None => {
            return Err(TranslationError::NotFound(
                "no patch file found in the patch path".to_owned(),
            ));
        },
    };
    let stem = match fxp_stem(listing[found].as_str()) {
        Some(s) => s,
        None => {
            return Err(TranslationError::NotFound(
                "no patch file found in the patch path".to_owned(),
            ));
        },
    };
    let mut path = dir.to_owned();
    path.append(stem.as_str());
    let mut args: Vec<Arg> = Vec::new();
    args.push(Arg::Str(path));
    Ok(LabeledMessage {
        message: Message { addr: "/patch/load".to_owned(), args },
        peer_recv: labeled.peer_recv,
        peer_send: labeled.peer_send,
    })
}

/// Builds the outbound save instruction: the destination is kept, the
/// address is the fixed save address, and the single argument is the bay
/// directory joined with the file-name component of the requested path.
/// Fails when either argument is absent or malformed.
pub fn save_patch(labeled: LabeledMessage, dir: &str) -> (r: Result<
    LabeledMessage,
    TranslationError,
>)
    ensures
        (labeled.message.args@.len() == 0 || !(labeled.message.args@[0] is Str)) ==> (r matches Err(
            e,
        ) && e is MissingArgument),
        labeled.message.args@.len() > 0 && labeled.message.args@[0] is Str && (
        labeled.message.args@.len() <= 1 || !(labeled.message.args@[1] is Str)) ==> (r matches Err(
            e,
        ) && e is MissingArgument),
        labeled.message.args@.len() > 1 && labeled.message.args@[0] is Str
            && labeled.message.args@[1] is Str ==> match r {
            Ok(m) => {
                &&& m.peer_recv == labeled.peer_recv
                &&& m.peer_send == labeled.peer_send
                &&& m.message.addr@ == "/patch/save"@
                &&& m.message.args@.len() == 1
                &&& m.message.args@[0] is Str
                &&& spec_file_name(labeled.message.args@[1]->Str_0@) matches Some(name)
                    && m.message.args@[0]->Str_0@ == dir@ + name
            },
            Err(e) => e is NotFound && spec_file_name(labeled.message.args@[1]->Str_0@) is None,
        },
{
    let _bay = get_patchbay(&labeled)?;
    let name = get_patchname(&labeled)?;
    let mut path = dir.to_owned();
    path.append(name.as_str());
    let mut args: Vec<Arg> = Vec::new();
    args.push(Arg::Str(path));
    Ok(LabeledMessage {
        message: Message { addr: "/patch/save".to_owned(), args },
        peer_recv: labeled.peer_recv,
        peer_send: labeled.peer_send,
    })
}

} // verus!
