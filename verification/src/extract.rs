//! Planning the unpacking of an archive.
//!
//! Every member of the archive becomes one step: a directory to create or a
//! file to write, at a path below the destination directory. The path is the
//! member's name with its `.` and `..` parts resolved. A member whose name
//! would lead out of the destination gets no step: the whole archive is
//! refused. Carrying the steps out is the caller's part.

use crate::archive::{archive_members, member_views, read_members, Member, MemberView};
use crate::text::{chars_of, has_char, lemma_split_pieces, rows, split, split_on, string_of};
use vstd::prelude::*;

verus! {

/// Why an archive could not be unpacked.
#[derive(Clone, Copy, Debug, PartialEq, Eq, Structural)]
pub enum ExtractError {
    /// The bytes are not a zip archive of which every member can be read.
    CorruptArchive,
    /// A member cannot be written below the destination directory.
    WriteFailed,
}

/// One step of unpacking. A path is a list of names, each the name of an
/// entry in the directory that the names before it lead to, starting in the
/// destination directory.
#[derive(Clone, Debug, PartialEq, Eq)]
pub enum ExtractStep {
    /// Create the directory at `path`, and those above it that are missing.
    CreateDir { path: Vec<String> },
    /// Write `data` to the file at `path`, in place of what is there, after
    /// creating the directories above it that are missing.
    WriteFile { path: Vec<String>, data: Vec<u8> },
}

/// The mathematical content of an [`ExtractStep`].
pub enum ExtractStepView {
    CreateDir { path: Seq<Seq<char>> },
    WriteFile { path: Seq<Seq<char>>, data: Seq<u8> },
}

impl View for ExtractStep {
    type V = ExtractStepView;

    open spec fn view(&self) -> ExtractStepView {
        match self {
            ExtractStep::CreateDir { path } => ExtractStepView::CreateDir {
                path: path.deep_view(),
            },
            ExtractStep::WriteFile { path, data } => ExtractStepView::WriteFile {
                path: path.deep_view(),
                data: data@,
            },
        }
    }
}

impl ExtractStepView {
    /// The path that the step creates or writes.
    pub open spec fn path(self) -> Seq<Seq<char>> {
        match self {
            ExtractStepView::CreateDir { path } => path,
            ExtractStepView::WriteFile { path, .. } => path,
        }
    }
}

/// The views of a sequence of steps.
pub open spec fn step_views(steps: Seq<ExtractStep>) -> Seq<ExtractStepView> {
    steps.map_values(|step: ExtractStep| step@)
}

/// A name that stands for an entry of the directory it is looked up in: not
/// empty, neither `.` nor `..`, and without `/` or NUL.
pub open spec fn plain_name(part: Seq<char>) -> bool {
    &&& part.len() > 0
    &&& part != seq!['.']
    &&& part != seq!['.', '.']
    &&& !part.contains('/')
    &&& !part.contains('\0')
}

/// A path made of plain names only. Followed from a directory, such a path
/// ends below that directory.
pub open spec fn enclosed(path: Seq<Seq<char>>) -> bool {
    forall|i: int| 0 <= i < path.len() ==> plain_name(#[trigger] path[i])
}

/// Where one more part of a name leads, from the place that `path` leads to:
/// an empty part and `.` stay, `..` goes one up, any other part goes one
/// down. There is no such place for `..` at the destination itself, nor for a
/// part with a NUL in it.
pub open spec fn follow(path: Seq<Seq<char>>, part: Seq<char>) -> Option<Seq<Seq<char>>> {
    if part.len() == 0 || part == seq!['.'] {
        Some(path)
    } else if part == seq!['.', '.'] {
        if path.len() > 0 {
            Some(path.drop_last())
        } else {
            None
        }
    } else if part.contains('\0') {
        None
    } else {
        Some(path.push(part))
    }
}

/// Where the parts of a name lead, followed one after the other from the
/// destination, if they never leave it.
pub open spec fn follow_all(parts: Seq<Seq<char>>) -> Option<Seq<Seq<char>>>
    decreases parts.len(),
{
    if parts.len() == 0 {
        Some(Seq::empty())
    } else {
        match follow_all(parts.drop_last()) {
            Some(path) => follow(path, parts.last()),
            None => None,
        }
    }
}

/// The path below the destination that a member's name stands for. A name
/// that starts with `/`, that goes above the destination at any point, or
/// that holds a NUL stands for none.
pub open spec fn resolved_path(name: Seq<char>) -> Option<Seq<Seq<char>>> {
    if name.len() > 0 && name[0] == '/' {
        None
    } else {
        follow_all(split(name, '/'))
    }
}

/// Whether a member is a directory: its name ends in `/`.
pub open spec fn names_directory(name: Seq<char>) -> bool {
    name.len() > 0 && name.last() == '/'
}

/// The step that unpacks one member: create the directory, or write the
/// file, at the path that the name stands for. There is none where the name
/// stands for no path, or where a file's name stands for the destination
/// itself.
pub open spec fn step_for(member: MemberView) -> Option<ExtractStepView> {
    match resolved_path(member.name) {
        Some(path) => if names_directory(member.name) {
            Some(ExtractStepView::CreateDir { path })
        } else if path.len() > 0 {
            Some(ExtractStepView::WriteFile { path, data: member.data })
        } else {
            None
        },
        None => None,
    }
}

/// The steps that unpack the given members, one for each and in their order,
/// or `WriteFailed` where one of them has no step.
pub open spec fn plan_for(members: Seq<MemberView>) -> Result<Seq<ExtractStepView>, ExtractError> {
    if forall|i: int| 0 <= i < members.len() ==> step_for(#[trigger] members[i]) is Some {
        Ok(members.map_values(|member: MemberView| step_for(member)->0))
    } else {
        Err(ExtractError::WriteFailed)
    }
}

/// The steps that unpack the archive that `bytes` holds: `CorruptArchive`
/// where the bytes are no archive of which every member can be read, else the
/// plan for its members.
pub open spec fn extraction_plan(bytes: Seq<u8>) -> Result<Seq<ExtractStepView>, ExtractError> {
    match archive_members(bytes) {
        Some(members) => plan_for(members),
        None => Err(ExtractError::CorruptArchive),
    }
}

/// The mathematical content of what the planning functions return.
pub open spec fn plan_view(plan: Result<Vec<ExtractStep>, ExtractError>) -> Result<
    Seq<ExtractStepView>,
    ExtractError,
> {
    match plan {
        Ok(steps) => Ok(step_views(steps@)),
        Err(error) => Err(error),
    }
}

/// Following parts that hold no `/` leads to an enclosed path.
pub proof fn lemma_follow_all_enclosed(parts: Seq<Seq<char>>)
    requires
        forall|i: int| 0 <= i < parts.len() ==> !(#[trigger] parts[i]).contains('/'),
    ensures
        follow_all(parts) matches Some(path) ==> enclosed(path),
    decreases parts.len(),
{
    if parts.len() > 0 {
        lemma_follow_all_enclosed(parts.drop_last());
    }
}

/// A resolved path never leaves the destination: it is made of plain names.
pub proof fn lemma_resolved_path_enclosed(name: Seq<char>)
    ensures
        resolved_path(name) matches Some(path) ==> enclosed(path),
{
    lemma_split_pieces(name, '/');
    lemma_follow_all_enclosed(split(name, '/'));
}

/// Every step of a plan creates or writes at an enclosed path, so carrying
/// the plan out touches nothing outside the destination directory.
pub proof fn lemma_plan_enclosed(members: Seq<MemberView>)
    ensures
        plan_for(members) matches Ok(steps) ==> forall|i: int|
            0 <= i < steps.len() ==> enclosed((#[trigger] steps[i]).path()),
{
    if let Ok(steps) = plan_for(members) {
        assert forall|i: int| 0 <= i < steps.len() implies enclosed(
            (#[trigger] steps[i]).path(),
        ) by {
            lemma_resolved_path_enclosed(members[i].name);
        }
    }
}

/// A plan unpacks what the archive holds and nothing else: it has one step
/// for each member, in the order of the members, and the step of a file
/// writes the very bytes of that member at the path that its name stands
/// for. So an archive of a single file gives exactly that one file.
pub proof fn lemma_plan_keeps_members(members: Seq<MemberView>)
    ensures
        plan_for(members) matches Ok(steps) ==> {
            &&& steps.len() == members.len()
            &&& forall|i: int|
                0 <= i < steps.len() ==> {
                    &&& resolved_path(members[i].name) == Some((#[trigger] steps[i]).path())
                    &&& steps[i] is CreateDir <==> names_directory(members[i].name)
                    &&& steps[i] matches ExtractStepView::WriteFile { data, .. } ==> data
                        == members[i].data
                }
        },
{
}

/// Whether `part` is the name `.`.
fn is_current(part: &Vec<char>) -> (b: bool)
    ensures
        b == (part@ == seq!['.']),
{
    let b = part.len() == 1 && part[0] == '.';
    assert(b ==> part@ =~= seq!['.']);
    b
}

/// Whether `part` is the name `..`.
fn is_parent(part: &Vec<char>) -> (b: bool)
    ensures
        b == (part@ == seq!['.', '.']),
{
    let b = part.len() == 2 && part[0] == '.' && part[1] == '.';
    assert(b ==> part@ =~= seq!['.', '.']);
    b
}

/// The path below the destination that a member's name stands for, see
/// [`resolved_path`]: the parts of the name between its `/`, with empty parts
/// and `.` left out and each `..` taking back the part before it. There is
/// none for a name that starts with `/`, that goes above the destination, or
/// that holds a NUL. A path that is given is made of plain names only.
pub fn resolve_path(name: &str) -> (path: Option<Vec<String>>)
    ensures
        path.deep_view() == resolved_path(name@),
        path matches Some(names) ==> enclosed(names.deep_view()),
{
    proof {
        lemma_resolved_path_enclosed(name@);
    }
    let chars = chars_of(name);
    if chars.len() > 0 && chars[0] == '/' {
        return None;
    }
    let parts = split_on(&chars, '/');
    let mut path: Vec<String> = Vec::new();
    let mut i: usize = 0;
    while i < parts.len()
        invariant
            i <= parts.len(),
            follow_all(rows(parts@).take(i as int)) == Some(path.deep_view()),
            rows(parts@) == split(name@, '/'),
            !(name@.len() > 0 && name@[0] == '/'),
        decreases parts.len() - i,
    {
        let part = &parts[i];
        assert(rows(parts@).take(i + 1).drop_last() == rows(parts@).take(i as int));
        if part.len() == 0 || is_current(part) {
        } else if is_parent(part) {
            if path.len() == 0 {
                proof {
                    lemma_follow_all_stays_lost(rows(parts@), i + 1);
                }
                return None;
            }
            path.pop();
        } else if has_char(part, '\0') {
            proof {
                lemma_follow_all_stays_lost(rows(parts@), i + 1);
            }
            return None;
        } else {
            path.push(string_of(part));
        }
        i += 1;
    }
    assert(rows(parts@).take(parts.len() as int) == rows(parts@));
    Some(path)
}

/// Once the parts of a name have left the destination, no further part
/// brings them back.
pub proof fn lemma_follow_all_stays_lost(parts: Seq<Seq<char>>, n: int)
    requires
        0 <= n <= parts.len(),
        follow_all(parts.take(n)) is None,
    ensures
        follow_all(parts) is None,
    decreases parts.len() - n,
{
    if n < parts.len() {
        assert(parts.take(n + 1).drop_last() == parts.take(n));
        lemma_follow_all_stays_lost(parts, n + 1);
    } else {
        assert(parts.take(n) == parts);
    }
}

/// Whether a member is a directory: its name ends in `/`.
pub fn is_directory_name(name: &str) -> (b: bool)
    ensures
        b == names_directory(name@),
{
    let chars = chars_of(name);
    chars.len() > 0 && chars[chars.len() - 1] == '/'
}

/// The step that unpacks `member`, see [`step_for`]: a directory to create
/// where the name ends in `/`, else a file to write with the member's
/// content, at the path that the name stands for. There is none where the
/// name stands for no path below the destination.
pub fn plan_member(member: Member) -> (step: Option<ExtractStep>)
    ensures
        step is Some <==> step_for(member@) is Some,
        step matches Some(s) ==> Some(s@) == step_for(member@) && enclosed(s@.path()),
{
    let path = match resolve_path(member.name.as_str()) {
        Some(path) => path,
        None => {
            return None;
        },
    };
    if is_directory_name(member.name.as_str()) {
        Some(ExtractStep::CreateDir { path })
    } else if path.len() > 0 {
        Some(ExtractStep::WriteFile { path, data: member.data })
    } else {
        None
    }
}

/// Plans the unpacking of the given members: one step for each, in their
/// order, see [`plan_for`]. The plan is refused as a whole, with
/// `WriteFailed`, where a member has no step. Every path of a plan is made of
/// plain names only, so that it ends below the destination directory.
pub fn plan_members(members: Vec<Member>) -> (plan: Result<Vec<ExtractStep>, ExtractError>)
    ensures
        plan_view(plan) == plan_for(member_views(members@)),
        plan matches Ok(steps) ==> forall|i: int|
            0 <= i < steps.len() ==> enclosed((#[trigger] steps[i])@.path()),
{
    let ghost all = member_views(members@);
    let mut steps: Vec<ExtractStep> = Vec::new();
    for member in it: members.into_iter()
        invariant
            it.seq() == members@,
            all == member_views(members@),
            steps.len() == it.index(),
            forall|j: int|
                0 <= j < it.index() ==> step_for(#[trigger] all[j]) == Some(steps[j]@) && enclosed(
                    steps[j]@.path(),
                ),
    {
        match plan_member(member) {
            Some(step) => {
                steps.push(step);
            },
            None => {
                assert(step_for(all[it.index() as int]) is None);
                return Err(ExtractError::WriteFailed);
            },
        }
    }
    assert(step_views(steps@) =~= all.map_values(|member: MemberView| step_for(member)->0));
    assert forall|i: int| 0 <= i < steps.len() implies enclosed((#[trigger] steps[i])@.path()) by {
        assert(step_for(all[i]) == Some(steps[i]@));
    }
    Ok(steps)
}

/// Plans the unpacking of the archive that `bytes` holds, see
/// [`extraction_plan`]. Bytes that are no zip archive, or hold a member that
/// cannot be read, give `CorruptArchive`: so do all inputs of fewer than 22
/// bytes, the empty one among them. An archive with a member that would be
/// written outside the destination gives `WriteFailed`. Otherwise the plan
/// has one step for each member, in the order of the archive's directory.
pub fn plan_extraction(bytes: &[u8]) -> (plan: Result<Vec<ExtractStep>, ExtractError>)
    ensures
        plan_view(plan) == extraction_plan(bytes@),
        archive_members(bytes@) is None ==> plan == Err::<Vec<ExtractStep>, ExtractError>(
            ExtractError::CorruptArchive,
        ),
        bytes@.len() < 22 ==> plan == Err::<Vec<ExtractStep>, ExtractError>(
            ExtractError::CorruptArchive,
        ),
        plan matches Ok(steps) ==> forall|i: int|
            0 <= i < steps.len() ==> enclosed((#[trigger] steps[i])@.path()),
{
    match read_members(bytes) {
        Some(members) => plan_members(members),
        None => Err(ExtractError::CorruptArchive),
    }
}

} // verus!
