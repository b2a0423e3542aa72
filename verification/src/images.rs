//! Operator authorization for immutable rootfs images. This does not verify bytes.
use crate::guest_model::copy_texts;
use crate::text::{is_lower_hex, lower_hex_text, same_text, texts};
use vstd::prelude::*;
use vstd::string::*;

verus! {

/// Most digests a policy may name.
pub const MAX_DIGESTS: usize = 256;

/// The canonical spelling of a SHA-256 digest: the algorithm, a colon and
/// sixty-four lowercase hexadecimal digits.
pub open spec fn image_digest(text: Seq<char>) -> bool {
    text.len() == 71 && text.take(7) == "sha256:"@ && lower_hex_text(text.skip(7))
}

/// A canonical SHA-256 digest. All runtime boundaries use the same spelling.
pub fn valid_image_digest(digest: &str) -> (r: bool)
    ensures
        r == image_digest(digest@),
{
    if digest.unicode_len() != 71 {
        return false;
    }
    let prefix: &str = digest.substring_char(0, 7);
    let hex: &str = digest.substring_char(7, 71);
    assert(prefix@ =~= digest@.take(7));
    assert(hex@ =~= digest@.skip(7));
    same_text(prefix, "sha256:") && is_lower_hex(hex)
}

#[derive(Debug, Clone, Copy, PartialEq, Eq, Structural)]
pub enum ImagePolicyError {
    /// Image policy must contain between 1 and 256 entries.
    Size,
    /// Image policy requires canonical lowercase sha256 digests.
    Digest,
    /// Image policy contains a duplicate digest.
    Duplicate,
}

/// Explicit, immutable configuration supplied by the operator, never the caller.
/// There is no permissive default. Replace API state to install a new policy.
#[derive(Debug)]
pub struct ImageAllowlist {
    digests: Vec<String>,
}

/// What a list of digests is refused for, the first offending one deciding.
pub open spec fn policy_scan(digests: Seq<Seq<char>>) -> Result<(), ImagePolicyError>
    decreases digests.len(),
{
    if digests.len() == 0 {
        Ok(())
    } else {
        let before = digests.drop_last();
        match policy_scan(before) {
            Err(e) => Err(e),
            Ok(_) => if before.len() >= MAX_DIGESTS {
                Err(ImagePolicyError::Size)
            } else if !image_digest(digests.last()) {
                Err(ImagePolicyError::Digest)
            } else if before.contains(digests.last()) {
                Err(ImagePolicyError::Duplicate)
            } else {
                Ok(())
            },
        }
    }
}

/// What `ImageAllowlist::new` answers.
pub open spec fn policy_check(digests: Seq<Seq<char>>) -> Result<(), ImagePolicyError> {
    match policy_scan(digests) {
        Err(e) => Err(e),
        Ok(_) => if digests.len() == 0 {
            Err(ImagePolicyError::Size)
        } else {
            Ok(())
        },
    }
}

proof fn lemma_scan_prefix_err(digests: Seq<Seq<char>>, k: int)
    requires
        0 <= k <= digests.len(),
        policy_scan(digests.take(k)) is Err,
    ensures
        policy_scan(digests) == policy_scan(digests.take(k)),
    decreases digests.len(),
{
    if k == digests.len() {
        assert(digests.take(k) =~= digests);
    } else {
        assert(digests.drop_last().take(k) =~= digests.take(k));
        lemma_scan_prefix_err(digests.drop_last(), k);
    }
}

/// An accepted policy names between one and 256 canonical digests, each once.
pub proof fn accepted_policy_is_bounded(digests: Seq<Seq<char>>)
    requires
        policy_check(digests) is Ok,
    ensures
        1 <= digests.len() <= MAX_DIGESTS,
        forall|i: int| 0 <= i < digests.len() ==> image_digest(#[trigger] digests[i]),
        digests.no_duplicates(),
{
    lemma_scan_ok(digests);
}

proof fn lemma_scan_ok(digests: Seq<Seq<char>>)
    requires
        policy_scan(digests) is Ok,
    ensures
        digests.len() <= MAX_DIGESTS,
        forall|i: int| 0 <= i < digests.len() ==> image_digest(#[trigger] digests[i]),
        digests.no_duplicates(),
    decreases digests.len(),
{
    if digests.len() > 0 {
        let before = digests.drop_last();
        lemma_scan_ok(before);
        assert(forall|i: int| 0 <= i < before.len() ==> before[i] == digests[i]);
        assert forall|i: int| 0 <= i < digests.len() implies image_digest(#[trigger] digests[i]) by {
            if i < before.len() {
                assert(image_digest(before[i]));
            }
        }
        assert forall|i: int, j: int| 0 <= i < digests.len() && 0 <= j < digests.len() && i != j implies digests[i]
            != digests[j] by {
            let last = digests.len() - 1;
            if i < last && j < last {
                assert(before[i] != before[j]);
            } else if i < last {
                assert(before.contains(before[i]));
            } else {
                assert(before.contains(before[j]));
            }
        }
    }
}

impl View for ImageAllowlist {
    type V = Seq<Seq<char>>;

    closed spec fn view(&self) -> Seq<Seq<char>> {
        texts(self.digests@)
    }
}

impl Clone for ImageAllowlist {
    fn clone(&self) -> (r: Self)
        ensures
            r@ == self@,
    {
        ImageAllowlist { digests: copy_texts(&self.digests) }
    }
}

/// Whether a text is among the strings.
fn among(digests: &Vec<String>, digest: &str) -> (r: bool)
    ensures
        r == texts(digests@).contains(digest@),
{
    let mut i: usize = 0;
    while i < digests.len()
        invariant
            i <= digests@.len(),
            forall|j: int| 0 <= j < i ==> #[trigger] texts(digests@)[j] != digest@,
        decreases digests@.len() - i,
    {
        if same_text(digests[i].as_str(), digest) {
            assert(texts(digests@)[i as int] == digest@);
            return true;
        }
        i = i + 1;
    }
    false
}

impl ImageAllowlist {
    pub fn new(digests: Vec<String>) -> (r: Result<Self, ImagePolicyError>)
        ensures
            match r {
                Ok(list) => list@ == texts(digests@) && policy_check(texts(digests@)) is Ok,
                Err(e) => policy_check(texts(digests@)) == Err::<(), ImagePolicyError>(e),
            },
    {
        let ghost all = texts(digests@);
        let mut entries: Vec<String> = Vec::new();
        let mut i: usize = 0;
        assert(all.take(0) =~= Seq::empty());
        assert(texts(entries@) =~= all.take(0));
        while i < digests.len()
            invariant
                all == texts(digests@),
                i <= digests@.len(),
                texts(entries@) == all.take(i as int),
                entries@.len() == i,
                policy_scan(all.take(i as int)) is Ok,
            decreases digests@.len() - i,
        {
            proof {
                assert(all.take(i + 1).drop_last() =~= all.take(i as int));
                assert(all.take(i + 1).last() == all[i as int]);
                assert(all[i as int] == digests@[i as int]@);
                if policy_scan(all.take(i + 1)) is Err {
                    lemma_scan_prefix_err(all, i + 1);
                }
            }
            if entries.len() >= MAX_DIGESTS {
                return Err(ImagePolicyError::Size);
            }
            let digest: &String = &digests[i];
            if !valid_image_digest(digest.as_str()) {
                return Err(ImagePolicyError::Digest);
            }
            if among(&entries, digest.as_str()) {
                return Err(ImagePolicyError::Duplicate);
            }
            let ghost before = entries@;
            entries.push(digest.clone());
            i = i + 1;
            proof {
                assert(texts(entries@) =~= texts(before).push(digest@));
                assert(texts(entries@) =~= all.take(i as int));
            }
        }
        assert(all.take(i as int) =~= all);
        if entries.len() == 0 {
            return Err(ImagePolicyError::Size);
        }
        Ok(ImageAllowlist { digests: entries })
    }

    pub fn allows(&self, digest: &str) -> (r: bool)
        ensures
            r == self@.contains(digest@),
    {
        among(&self.digests, digest)
    }
}

} // verus!
