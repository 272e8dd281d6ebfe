use crate::error::{IoFault, IoKind};
use vstd::arithmetic::power::pow;
use vstd::prelude::*;
use vstd::string::StringExecFns;

verus! {

/// The lower-case hexadecimal digit of `d`, for `0 <= d < 16`.
pub open spec fn hex_digit(d: int) -> char {
    seq!['0', '1', '2', '3', '4', '5', '6', '7', '8', '9', 'a', 'b', 'c', 'd', 'e', 'f'][d]
}

/// The `k`-th of the 32 hexadecimal digits of `id`, the most significant first.
pub open spec fn nibble(id: u128, k: int) -> int {
    (id as int / pow(16, (31 - k) as nat)) % 16
}

/// Digits `a` up to `b` (exclusive) of `id`.
pub open spec fn hex_digits(id: u128, a: int, b: int) -> Seq<char> {
    Seq::new((b - a) as nat, |i: int| hex_digit(nibble(id, a + i)))
}

/// The hyphenated text of an identifier: groups of 8, 4, 4, 4 and 12 digits.
pub open spec fn id_text(id: u128) -> Seq<char> {
    hex_digits(id, 0, 8) + seq!['-'] + hex_digits(id, 8, 12) + seq!['-'] + hex_digits(id, 12, 16)
        + seq!['-'] + hex_digits(id, 16, 20) + seq!['-'] + hex_digits(id, 20, 32)
}

/// The directory of the server `id` under the data root `root`.
pub open spec fn mount_path(root: Seq<char>, id: u128) -> Seq<char> {
    root + seq!['/'] + id_text(id)
}

/// Relies on uuid's `Uuid::from_u128` (big-endian) and its hyphenated `Display`:
/// 32 lower-case hex digits in groups of 8-4-4-4-12.
#[verifier::external_body]
fn hyphenated(id: u128) -> (r: String)
    ensures
        r@ == id_text(id),
{
    uuid::Uuid::from_u128(id).hyphenated().to_string()
}

/// The first removal failure that counts, in the order given: an entry that
/// was already gone is no failure.
pub open spec fn first_failure(removals: Seq<Result<(), IoFault>>) -> Option<IoFault>
    decreases removals.len(),
{
    if removals.len() == 0 {
        None
    } else {
        match removals[0] {
            Err(e) if e.kind != IoKind::NotFound => Some(e),
            _ => first_failure(removals.drop_first()),
        }
    }
}

/// Cleaning a directory with no entries, or whose entries were all gone
/// already, succeeds.
pub proof fn lemma_clean_nothing_left(removals: Seq<Result<(), IoFault>>)
    requires
        forall|i: int| 0 <= i < removals.len() ==> (#[trigger] removals[i] matches Err(e) ==> e.kind == IoKind::NotFound),
    ensures
        first_failure(removals) is None,
    decreases removals.len(),
{
    if removals.len() > 0 {
        assert(removals[0] matches Err(e) ==> e.kind == IoKind::NotFound);
        let rest = removals.drop_first();
        assert forall|i: int| 0 <= i < rest.len() implies (#[trigger] rest[i] matches Err(e) ==> e.kind == IoKind::NotFound) by {
            assert(rest[i] == removals[i + 1]);
        }
        lemma_clean_nothing_left(rest);
    }
}

/// The host directory that one server's container sees as its data volume.
pub struct BindMount {
    path: String,
}

/// A bind mount for the container runtime: `source` on the host appears at
/// `target` in the container.
#[derive(Debug, PartialEq, Eq)]
pub struct MountDescriptor {
    pub target: String,
    pub source: String,
    pub read_only: bool,
    pub non_recursive: bool,
}

impl BindMount {
    pub closed spec fn spec_path(&self) -> Seq<char> {
        self.path@
    }

    /// The bind mount of server `id` under the data root `root`. Creating or
    /// resetting the directory itself is the caller's filesystem work.
    pub fn new(root: &str, id: u128) -> (r: BindMount)
        ensures
            r.spec_path() == mount_path(root@, id),
    {
        let mut path = root.to_owned();
        proof {
            reveal_strlit("/");
        }
        path.append("/");
        let text = hyphenated(id);
        path.append(text.as_str());
        BindMount { path }
    }

    pub fn path(&self) -> (r: &str)
        ensures
            r@ == self.spec_path(),
    {
        self.path.as_str()
    }

    /// The path of the directory entry `name` inside this mount.
    pub fn entry_path(&self, name: &str) -> (r: String)
        ensures
            r@ == self.spec_path() + seq!['/'] + name@,
    {
        let mut p = self.path.clone();
        proof {
            reveal_strlit("/");
        }
        p.append("/");
        p.append(name);
        p
    }

    /// Settles the emptying of this directory from the outcomes of removing
    /// each of its entries, in the order they completed: success when every
    /// entry is gone, else the first failure. An empty directory has no
    /// removals and is cleaned successfully.
    pub fn clean(&self, removals: &Vec<Result<(), IoFault>>) -> (r: Result<(), IoFault>)
        ensures
            r == (match first_failure(removals@) {
                None => Ok(()),
                Some(e) => Err(e),
            }),
    {
        let mut i: usize = 0;
        assert(removals@.subrange(0, removals@.len() as int) =~= removals@);
        while i < removals.len()
            invariant
                i <= removals@.len(),
                first_failure(removals@) == first_failure(removals@.subrange(i as int, removals@.len() as int)),
            decreases removals@.len() - i,
        {
            let ghost rest = removals@.subrange(i as int, removals@.len() as int);
            assert(rest.drop_first() =~= removals@.subrange(i + 1, removals@.len() as int));
            match &removals[i] {
                Err(e) => {
                    if e.kind != IoKind::NotFound {
                        return Err(e.duplicate());
                    }
                },
                Ok(()) => {},
            }
            i = i + 1;
        }
        assert(removals@.subrange(i as int, removals@.len() as int).len() == 0);
        Ok(())
    }

    /// The runtime mount that binds this directory at `target`: writable,
    /// with non-recursive propagation.
    pub fn to_docker_mount(&self, target: String) -> (r: MountDescriptor)
        ensures
            r.target == target,
            r.source@ == self.spec_path(),
            !r.read_only,
            r.non_recursive,
    {
        MountDescriptor { target, source: self.path.clone(), read_only: false, non_recursive: true }
    }
}

} // verus!
