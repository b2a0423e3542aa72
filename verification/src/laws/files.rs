//! Files that may be transferred: their paths, their size, and what describes them.
use crate::digest::{hex_text, sha256_of};
use crate::file_sources::{
    source_plan_json, source_plan_valid, source_retirement_valid, SourcePlan, SourceRetirement,
};
use crate::files::{
    path_check, path_error, plain_segment, receipt_check, upload_check, upload_digest, upload_json, FileError, Receipt,
    Upload,
};
use crate::text::{
    byte_len, has_control, lemma_pieces_joined, lemma_pieces_nonempty, lemma_single_piece, pieces,
};
use vstd::string::*;
use vstd::utf8::*;
use vstd::prelude::*;

verus! {

/// A stretch of the path between two slashes, or between one and an end.
pub open spec fn segment(path: Seq<char>, i: int, j: int) -> bool {
    &&& 0 <= i <= j <= path.len()
    &&& i == 0 || path[i - 1] == '/'
    &&& j == path.len() || path[j] == '/'
    &&& forall|k: int| i <= k < j ==> path[k] != '/'
}

proof fn lemma_segment_is_a_piece(path: Seq<char>, i: int, j: int)
    requires
        segment(path, i, j),
    ensures
        exists|k: int| 0 <= k < pieces(path, '/').len() && #[trigger] pieces(path, '/')[k] == path.subrange(i, j) && (i == 0
            ==> k == 0),
{
    let rest = path.skip(i);
    let seg = path.subrange(i, j);
    assert(!seg.contains('/')) by {
        if seg.contains('/') {
            let k = choose|k: int| 0 <= k < seg.len() && seg[k] == '/';
            assert(path[i + k] == '/');
        }
    }
    lemma_single_piece(seg, '/');
    if j < path.len() {
        let after = path.skip(j + 1);
        assert(rest =~= seg.push('/') + after);
        lemma_pieces_joined(seg, '/', after);
    } else {
        assert(rest =~= seg);
    }
    assert(pieces(rest, '/').len() > 0 && pieces(rest, '/')[0] == seg);
    if i > 0 {
        let before = path.take(i - 1);
        assert(path =~= before.push('/') + rest);
        lemma_pieces_joined(before, '/', rest);
        let n = pieces(before, '/').len() as int;
        assert(pieces(path, '/')[n] == pieces(rest, '/')[0]);
    } else {
        assert(rest =~= path);
        assert(pieces(path, '/')[0] == seg);
    }
}

proof fn lemma_piece_is_a_segment(path: Seq<char>, k: int) -> (r: (int, int))
    requires
        0 <= k < pieces(path, '/').len(),
    ensures
        segment(path, r.0, r.1),
        pieces(path, '/')[k] == path.subrange(r.0, r.1),
        k == 0 ==> r.0 == 0,
        k == pieces(path, '/').len() - 1 <==> r.1 == path.len(),
    decreases path.len(),
{
    if path.len() == 0 {
        assert(path.subrange(0, 0) =~= Seq::<char>::empty());
        (0, 0)
    } else {
        let before = path.drop_last();
        let n = path.len() as int;
        lemma_pieces_nonempty(before, '/');
        let m = pieces(before, '/').len() as int;
        assert forall|x: int| 0 <= x < n - 1 implies #[trigger] path[x] == before[x] by {}
        assert(path[n - 1] == path.last());
        if path.last() == '/' {
            if k == m {
                assert(path.subrange(n, n) =~= Seq::<char>::empty());
                (n, n)
            } else {
                let (i, j) = lemma_piece_is_a_segment(before, k);
                assert(path.subrange(i, j) =~= before.subrange(i, j));
                assert(segment(path, i, j));
                (i, j)
            }
        } else {
            let (i, j) = lemma_piece_is_a_segment(before, k);
            if k == m - 1 {
                assert(path.subrange(i, n) =~= before.subrange(i, j).push(path.last()));
                assert(segment(path, i, n));
                (i, n)
            } else {
                assert(path.subrange(i, j) =~= before.subrange(i, j));
                assert(before[j] == '/');
                assert(segment(path, i, j));
                (i, j)
            }
        }
    }
}

/// The path names a file inside the workspace: it is there, of at most 4096 bytes,
/// without control characters or backslashes, every part of it is a name of at most
/// 255 bytes that goes nowhere else, and it does not begin in the transfers' own
/// directory.
pub open spec fn inside_workspace(path: Seq<char>) -> bool {
    &&& path.len() >= 1
    &&& byte_len(path) <= 4096
    &&& forall|i: int| 0 <= i < path.len() ==> (#[trigger] path[i]) >= ' ' && path[i] != '\u{7f}' && path[i] != '\\'
    &&& forall|i: int, j: int|
        #![trigger path.subrange(i, j)]
        segment(path, i, j) ==> {
            let part = path.subrange(i, j);
            part.len() >= 1 && part != "."@ && part != ".."@ && byte_len(part) <= 255 && (i == 0 ==> part
                != ".hudson-transfers"@)
        }
}

/// A path is accepted exactly where it names a file inside the workspace.
pub proof fn accepted_paths_stay_inside_the_workspace(path: Seq<char>)
    ensures
        path_check(path) is Ok <==> inside_workspace(path),
        path.len() == 0 || byte_len(path) > 4096 <==> path_check(path) == Err::<(), FileError>(FileError::PathLength),
{
    lemma_pieces_nonempty(path, '/');
    if path_error(path) is None {
        assert forall|i: int, j: int|
            #![trigger path.subrange(i, j)]
            segment(path, i, j) implies {
            let part = path.subrange(i, j);
            part.len() >= 1 && part != "."@ && part != ".."@ && byte_len(part) <= 255 && (i == 0 ==> part
                != ".hudson-transfers"@)
        } by {
            lemma_segment_is_a_piece(path, i, j);
            let k = choose|k: int|
                0 <= k < pieces(path, '/').len() && #[trigger] pieces(path, '/')[k] == path.subrange(i, j) && (i == 0
                    ==> k == 0);
            assert(plain_segment(pieces(path, '/')[k]));
        }
    }
    if inside_workspace(path) {
        assert forall|k: int| 0 <= k < pieces(path, '/').len() implies plain_segment(
            #[trigger] pieces(path, '/')[k],
        ) by {
            let (i, j) = lemma_piece_is_a_segment(path, k);
            assert(path.subrange(i, j) == pieces(path, '/')[k]);
        }
        let (i, j) = lemma_piece_is_a_segment(path, 0);
        assert(path.subrange(i, j) == pieces(path, '/')[0]);
    }
}

/// No accepted path is absolute, ends in a slash, or climbs out of the workspace.
pub proof fn accepted_paths_are_relative(path: Seq<char>)
    requires
        path_check(path) is Ok,
    ensures
        path[0] != '/',
        path.last() != '/',
        path != ".."@,
        path.len() >= 3 ==> path.take(3) != "../"@,
{
    accepted_paths_stay_inside_the_workspace(path);
    reveal_strlit("../");
    reveal_strlit("..");
    assert("../"@.len() == 3);
    if path[0] == '/' {
        assert(segment(path, 0, 0));
        assert(path.subrange(0, 0).len() == 0);
    }
    if path.last() == '/' {
        let n = path.len() as int;
        assert(segment(path, n, n));
        assert(path.subrange(n, n).len() == 0);
    }
    if path == ".."@ {
        assert(segment(path, 0, 2));
        assert(path.subrange(0, 2) =~= ".."@);
    }
    if path.len() >= 3 && path.take(3) == "../"@ {
        assert(path[0] == path.take(3)[0] && path[1] == path.take(3)[1] && path[2] == path.take(3)[2]);
        assert(segment(path, 0, 2));
        assert(path.subrange(0, 2) =~= ".."@);
    }
}

/// An upload is accepted exactly where its path is, it is of at most eight MiB, and its
/// mode is that of an ordinary or an executable file.
pub proof fn uploads_are_small_plain_files(u: Upload)
    ensures
        upload_check(u) is Ok <==> path_check(u.path@) is Ok && u.size <= 8388608 && (u.mode == 420 || u.mode == 493),
        path_check(u.path@) is Err ==> upload_check(u) == Err::<(), FileError>(path_check(u.path@)->Err_0),
        path_check(u.path@) is Ok && u.size > 8388608 ==> upload_check(u) == Err::<(), FileError>(FileError::Size),
        path_check(u.path@) is Ok && u.size <= 8388608 && u.mode != 420 && u.mode != 493 ==> upload_check(u) == Err::<
            (),
            FileError,
        >(FileError::Mode),
{
    assert(0o644u32 == 420u32 && 0o755u32 == 493u32);
}

/// A receipt of an upload is accepted exactly where it names a real boot and holds the
/// digest of the very upload that it describes.
pub proof fn file_receipts_hold_their_uploads_digest(r: Receipt)
    ensures
        receipt_check(r) is Ok <==> {
            &&& r.version == 1
            &&& r.context.generation >= 1
            &&& r.context.boot_id@.len() >= 1
            &&& byte_len(r.context.boot_id@) <= 64
            &&& upload_check(r.upload) is Ok
            &&& r.digest@ == sha256_of(encode_utf8("hudson-file-upload-v1\0"@) + encode_utf8(upload_json(r.upload)))@
        },
        upload_check(r.upload) is Ok <==> upload_digest(r.upload) is Ok,
        upload_digest(r.upload) matches Ok(d) ==> d == sha256_of(
            encode_utf8("hudson-file-upload-v1\0"@) + encode_utf8(upload_json(r.upload)),
        ),
{
}

/// A source plan is accepted exactly where it is of a real scope, of the operation that
/// uploads, of an upload that is accepted, and of times in their order: it begins, is
/// written, expires, and is then deleted.
pub proof fn source_plans_are_of_their_upload(p: SourcePlan)
    ensures
        source_plan_valid(p) <==> {
            &&& p.version == 1
            &&& p.owner.scope.version == 1
            &&& p.owner.scope.host_epoch >= 1
            &&& p.owner.scope.generation >= 1
            &&& p.owner.operation_id == p.upload.operation_id
            &&& upload_check(p.upload) is Ok
            &&& p.created_unix_ms >= 1
            &&& p.created_unix_ms < p.write_expires_unix_ms
            &&& p.write_expires_unix_ms <= p.expires_unix_ms
            &&& p.expires_unix_ms <= p.delete_after_unix_ms
        },
{
}

/// The two plans are the same plan.
pub open spec fn sources_alike(a: SourcePlan, b: SourcePlan) -> bool {
    &&& a.version == b.version
    &&& a.owner == b.owner
    &&& a.upload.operation_id == b.upload.operation_id
    &&& a.upload.path@ == b.upload.path@
    &&& a.upload.size == b.upload.size
    &&& a.upload.sha256@ == b.upload.sha256@
    &&& a.upload.mode == b.upload.mode
    &&& a.source_attempt == b.source_attempt
    &&& a.created_unix_ms == b.created_unix_ms
    &&& a.write_expires_unix_ms == b.write_expires_unix_ms
    &&& a.expires_unix_ms == b.expires_unix_ms
    &&& a.delete_after_unix_ms == b.delete_after_unix_ms
}

/// A storage identity that can be kept: present, of at most 1024 bytes, without control
/// characters.
pub open spec fn storage_name(text: Seq<char>) -> bool {
    text.len() >= 1 && byte_len(text) <= 1024 && !has_control(text)
}

/// A source's retirement is accepted exactly where it is of this plan, by its digest,
/// its marker is named, and what was there before, if anything was, is an object of the
/// same plan whose version is not the marker's, unless neither is versioned.
pub proof fn source_retirements_are_of_their_plan(r: SourceRetirement, plan: SourcePlan)
    ensures
        source_retirement_valid(r, plan) <==> {
            &&& r.version == 1
            &&& source_plan_valid(plan)
            &&& r.plan_sha256@ == hex_text(
                sha256_of(encode_utf8("hudson-file-source-v1\0"@) + encode_utf8(source_plan_json(plan)))@,
            )
            &&& storage_name(r.marker_etag@)
            &&& r.marker_version matches Some(v) ==> storage_name(v@)
            &&& r.previous matches Some(x) ==> {
                &&& source_plan_valid(x.plan)
                &&& storage_name(x.etag@)
                &&& x.object_version matches Some(v) ==> storage_name(v@)
                &&& sources_alike(x.plan, plan)
                &&& x.object_version is Some <==> r.marker_version is Some
                &&& x.object_version is Some && r.marker_version is Some ==> {
                    let old = x.object_version->0@;
                    let marker = r.marker_version->0@;
                    old != marker || (old == "null"@ && marker == "null"@)
                }
            }
        },
{
}

} // verus!
