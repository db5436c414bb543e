//! Reading a zip archive that is held in memory.
//!
//! The `zip` crate parses the container and inflates its members. This module
//! states what the library relies on and reads the members out into plain
//! values, in the order of the archive's directory.

use std::io::Cursor;
use std::io::Read;
use vstd::prelude::*;
use zip::result::ZipError;
use zip::ZipArchive;

verus! {

/// `zip::ZipArchive`, an opened archive over the reader `R`.
#[verifier::external_type_specification]
#[verifier::external_body]
#[verifier::reject_recursive_types(R)]
pub struct ExZipArchive<R>(ZipArchive<R>);

/// `std::io::Cursor`, the reader over bytes in memory that the archive is
/// opened on.
#[verifier::external_type_specification]
#[verifier::external_body]
#[verifier::reject_recursive_types(T)]
pub struct ExCursor<T>(Cursor<T>);

/// `zip::result::ZipError`, what a refused archive gives.
#[verifier::external_type_specification]
#[verifier::external_body]
pub struct ExZipError(ZipError);

/// One member of an archive: the name it is stored under and its content.
#[derive(Clone, Debug, PartialEq, Eq)]
pub struct Member {
    /// The name as the archive's directory gives it, with `/` between its
    /// parts and a `/` at the end where the member is a directory.
    pub name: String,
    /// The content, inflated.
    pub data: Vec<u8>,
}

/// The mathematical content of a [`Member`].
pub struct MemberView {
    pub name: Seq<char>,
    pub data: Seq<u8>,
}

impl View for Member {
    type V = MemberView;

    open spec fn view(&self) -> MemberView {
        MemberView { name: self.name@, data: self.data@ }
    }
}

/// The views of a sequence of members.
pub open spec fn member_views(members: Seq<Member>) -> Seq<MemberView> {
    members.map_values(|member: Member| member@)
}

/// What `zip::ZipArchive::new` makes of a byte sequence: nothing where it
/// rejects the bytes, else the members in the order of the archive's
/// directory, each with its name and content where the member can be read.
pub uninterp spec fn zip_members(bytes: Seq<u8>) -> Option<Seq<Option<MemberView>>>;

/// The members that an opened archive holds, in the order of its directory,
/// each with its name and content where the member can be read.
pub uninterp spec fn held_members(archive: ZipArchive<Cursor<&[u8]>>) -> Seq<Option<MemberView>>;

/// `zip::ZipArchive::new` on the bytes: it gives an archive that holds
/// [`zip_members`] of the bytes, or fails where there are none. It looks for a
/// directory end record of 22 bytes, so fewer bytes than that always fail.
#[verifier::external_body]
fn open_archive(bytes: &[u8]) -> (opened: Result<ZipArchive<Cursor<&[u8]>>, ZipError>)
    ensures
        match opened {
            Ok(archive) => zip_members(bytes@) == Some(held_members(archive)),
            Err(_) => zip_members(bytes@) is None,
        },
        bytes@.len() < 22 ==> opened is Err,
{
    ZipArchive::new(Cursor::new(bytes))
}

/// `zip::ZipArchive::len`: the number of members in the archive's directory.
#[verifier::external_body]
fn member_count(archive: &ZipArchive<Cursor<&[u8]>>) -> (count: usize)
    ensures
        count == held_members(*archive).len(),
{
    archive.len()
}

/// `zip::ZipArchive::by_index_decrypt` with an empty password, then
/// `zip::read::ZipFile::name` and `std::io::Read::read_to_end` on the member
/// that it gives. The result is the member at `index`, with its name and its
/// whole content, where there is such a member and it can be read, and
/// nothing otherwise. The archive holds the same members afterwards.
/// (`by_index` is not called: it panics on a member that only its extra field
/// marks as encrypted.)
#[verifier::external_body]
fn read_member(archive: &mut ZipArchive<Cursor<&[u8]>>, index: usize) -> (member: Option<Member>)
    ensures
        held_members(*final(archive)) == held_members(*old(archive)),
        member is Some <==> index < held_members(*old(archive)).len() && held_members(
            *old(archive),
        )[index as int] is Some,
        member is Some ==> held_members(*old(archive))[index as int] == Some(member->0@),
{
    let mut file = archive.by_index_decrypt(index, b"").ok()?.ok()?;
    let mut data = Vec::new();
    file.read_to_end(&mut data).ok()?;
    Some(Member { name: file.name().to_string(), data })
}

/// Whether every member of a listing can be read.
pub open spec fn all_readable(listing: Seq<Option<MemberView>>) -> bool {
    forall|i: int| 0 <= i < listing.len() ==> (#[trigger] listing[i]) is Some
}

/// The members of the archive that `bytes` holds, where the bytes are a zip
/// archive of which every member can be read.
pub open spec fn archive_members(bytes: Seq<u8>) -> Option<Seq<MemberView>> {
    match zip_members(bytes) {
        Some(listing) => if all_readable(listing) {
            Some(listing.map_values(|member: Option<MemberView>| member->0))
        } else {
            None
        },
        None => None,
    }
}

/// Reads every member out of the archive that `bytes` holds. This succeeds
/// where the bytes are a zip archive of which every member can be read, and
/// then gives the members in the order of the archive's directory. Fewer than
/// 22 bytes are never an archive.
pub fn read_members(bytes: &[u8]) -> (members: Option<Vec<Member>>)
    ensures
        members is Some <==> archive_members(bytes@) is Some,
        members is Some ==> member_views(members->0@) == archive_members(bytes@)->0,
        bytes@.len() < 22 ==> members is None,
{
    let ghost content = bytes@;
    let mut archive = match open_archive(bytes) {
        Ok(archive) => archive,
        Err(_) => {
            return None;
        },
    };
    let ghost held = held_members(archive);
    let count = member_count(&archive);
    let mut members: Vec<Member> = Vec::new();
    let mut i: usize = 0;
    while i < count
        invariant
            i <= count == held.len(),
            content == bytes@,
            zip_members(content) == Some(held),
            held_members(archive) == held,
            members@.len() == i,
            forall|j: int| 0 <= j < i ==> held[j] == Some(#[trigger] members@[j]@),
        decreases count - i,
    {
        match read_member(&mut archive, i) {
            Some(member) => {
                members.push(member);
            },
            None => {
                return None;
            },
        }
        i += 1;
    }
    assert forall|j: int| 0 <= j < held.len() implies (#[trigger] held[j]) is Some by {
        assert(held[j] == Some(members@[j]@));
    }
    Some(members)
}

} // verus!
