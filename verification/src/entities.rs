//! **The entity verbs**: creating, relabelling, archiving, renaming and
//! merging an entity, and writing a bot's charter. What is here is what those
//! verbs decide around the store's write — the record a creation asks for, the
//! box that comes with a bot, and the refusals a rename can meet.

use vstd::prelude::*;
use crate::declined::{blocked_body, blocked_result, gate_advice, has_exact, matches_view, BlockedAnswer, Blocked};
use crate::capture::opt_text;
use crate::parse::{date_of, parse_date, boot_of, given_text, entity_handle, kind_refusal_msg, refused, entity_id, parse_boot};
use crate::text::{chars_of, push_str, same_text, split_at_char, split_once, string_of, text, trim, trimmed_str};
use crate::vocab::{person_handle, Day, handle_kind, resolve_kind, Boot, EntityId, EntityMatch, Kinds, MatchReason, McpError};

verus! {

/// Arguments to `add_entity`.
#[derive(Debug)]
pub struct AddEntityArgs {
    /// The kind's token.
    pub kind: String,
    /// The slug half of the handle, or a full `kind:slug` whose kind must
    /// match `kind`.
    pub handle: String,
    /// Display name.
    pub name: String,
    /// The other names this one answers to.
    pub aliases: Option<Vec<String>>,
    /// Where this entity came from — never invented.
    pub source: String,
    /// A cross-link into the task layer.
    pub crm: Option<String>,
    /// `always` or `on-demand` (the default).
    pub boot: Option<String>,
    /// The token a previous refusal handed back.
    pub override_token: Option<String>,
    /// The caller's session id.
    pub sid: Option<String>,
}

/// Arguments to `archive_entity`.
#[derive(Debug)]
pub struct ArchiveEntityArgs {
    /// The entity's handle.
    pub handle: String,
    /// Why, in the caller's own words. Required.
    pub reason: String,
    /// The caller's session id.
    pub sid: Option<String>,
}

/// Arguments to `list_entities`.
#[derive(Debug)]
pub struct ListEntitiesArgs {
    /// Narrow to one kind; omit for every entity.
    pub kind: Option<String>,
    /// The caller's session id.
    pub sid: Option<String>,
}

/// Arguments to `merge_entities`.
#[derive(Debug)]
pub struct MergeArgs {
    /// The handle that stops being a thing of its own.
    pub duplicate: String,
    /// The handle that survives.
    pub survivor: String,
    /// Why the two are one thing. Optional.
    pub reason: Option<String>,
    /// The day this merge was made.
    pub recorded_at: Option<String>,
    /// The caller's session id.
    pub sid: Option<String>,
}

/// Arguments to `rename_entity`.
#[derive(Debug)]
pub struct RenameEntityArgs {
    /// The entity's current handle, or one an earlier move changed.
    pub handle: String,
    /// The destination, always `kind:slug`.
    pub to: String,
    /// Reparent onto this handle; omit to leave the parent alone.
    pub parent: Option<String>,
    /// The day this rename was made.
    pub recorded_at: Option<String>,
    /// The token a previous refusal handed back.
    pub override_token: Option<String>,
    /// The caller's session id.
    pub sid: Option<String>,
}

/// Arguments to `set_charter`.
#[derive(Debug)]
pub struct SetCharterArgs {
    /// The bot: its bare slug, or its full handle.
    pub bot: String,
    /// The charter itself. It replaces what the bot had.
    pub prose: String,
    /// The caller's session id.
    pub sid: Option<String>,
}

/// Arguments to `update_entity`.
#[derive(Debug)]
pub struct UpdateEntityArgs {
    /// The entity's handle. Not editable.
    pub handle: String,
    /// New display name.
    pub name: Option<String>,
    /// The whole alias set, replaced.
    pub aliases: Option<Vec<String>>,
    /// New source.
    pub source: Option<String>,
    /// New cross-link.
    pub crm: Option<String>,
    /// The token a previous refusal handed back.
    pub override_token: Option<String>,
    /// The caller's session id.
    pub sid: Option<String>,
}

/// Arguments to `update_fact`.
#[derive(Debug)]
pub struct UpdateFactArgs {
    /// The fact's address.
    pub address: String,
    /// Keys to set.
    pub fields: Option<Vec<(String, String)>>,
    /// Keys to clear.
    pub clear_fields: Option<Vec<String>>,
    pub content: Option<String>,
    pub details: Option<String>,
    pub status: Option<String>,
    pub standing: Option<String>,
    pub provenance: Option<String>,
    /// The operator's word, for the moves that need it.
    pub confirmed_by_user: Option<bool>,
    pub shape: Option<String>,
    pub object: Option<String>,
    pub recorded_at: Option<String>,
    pub happened_at: Option<String>,
    pub stale_after: Option<String>,
    pub clear_stale_after: Option<bool>,
    pub derived_from: Option<String>,
    pub clear_derived_from: Option<bool>,
    /// The caller's session id.
    pub sid: Option<String>,
}

/// **What a creation asks the store for**: the handle, the names, where it
/// came from, and whether it boots with every session.
#[derive(Debug)]
pub struct NewEntity {
    pub id: EntityId,
    pub name: String,
    pub aliases: Vec<String>,
    pub source: String,
    pub crm: Option<String>,
    /// Every write through the door is a root.
    pub parent: Option<EntityId>,
    pub boot: Boot,
    pub override_token: Option<String>,
}

/// The entity a creation's arguments ask for, or the first malformed one:
/// the kind and handle, then the boot tier.
pub fn new_entity(kinds: &Kinds, args: AddEntityArgs) -> (r: Result<NewEntity, McpError>)
    ensures
        match resolve_kind(kinds@, trim(args.kind@)) {
            Err(why) => refused(r, kind_refusal_msg(args.kind@, why)),
            Ok(k) => match entity_handle(k, args.handle@) {
                Err(m) => refused(r, m),
                Ok(id) => match boot_of(given_text(opt_text(args.boot))) {
                    Err(m) => refused(r, m),
                    Ok(boot) => r matches Ok(e) && e.id@ == id && e.boot == boot && e.name == args.name
                        && e.source == args.source && e.crm == args.crm && e.parent is None
                        && e.override_token == args.override_token && match args.aliases {
                            Some(a) => e.aliases == a,
                            None => e.aliases@.len() == 0,
                        },
                },
            },
        },
{
    let id = match entity_id(kinds, args.kind.as_str(), args.handle.as_str()) {
        Ok(id) => id,
        Err(e) => return Err(e),
    };
    let boot_arg: Option<&str> = match &args.boot {
        Some(b) => Some(b.as_str()),
        None => None,
    };
    let boot = match parse_boot(boot_arg) {
        Ok(b) => b,
        Err(e) => return Err(e),
    };
    let AddEntityArgs { kind: _, handle: _, name, aliases, source, crm, boot: _, override_token, sid: _ } = args;
    let aliases = match aliases {
        Some(a) => a,
        None => Vec::new(),
    };
    Ok(NewEntity { id, name, aliases, source, crm, parent: None, boot, override_token })
}

/// The slug half of a handle: what follows its first `:`, or the whole text
/// when it has none.
pub open spec fn slug_of(s: Seq<char>) -> Seq<char> {
    match split_once(s, ':') {
        Some((_, slug)) => slug,
        None => s,
    }
}

impl EntityId {
    /// The slug half of this handle.
    pub fn slug(&self) -> (s: String)
        ensures
            s@ == slug_of(self@),
    {
        let v = chars_of(self.0.as_str());
        match split_at_char(&v, ':') {
            Some((_, slug)) => string_of(&slug),
            None => self.0.clone(),
        }
    }
}

/// **The box that comes with a bot**, named for it: a bot's handle names its
/// box by its slug, and nothing else comes with one.
pub open spec fn box_for(id: Seq<char>) -> Option<Seq<char>> {
    if handle_kind(id) == Some("bot"@) {
        Some(slug_of(id))
    } else {
        None
    }
}

/// The name of the box a new entity opens with, if it is a bot.
pub fn mailbox_for(id: &EntityId) -> (r: Option<String>)
    ensures
        match box_for(id@) {
            Some(n) => r matches Some(s) && s@ == n,
            None => r is None,
        },
{
    let is_bot = match id.kind() {
        Some(k) => crate::text::spells(&chars_of(k.0.as_str()), "bot"),
        None => false,
    };
    if is_bot {
        Some(id.slug())
    } else {
        None
    }
}

/// Rename incomplete.
pub open spec fn rename_incomplete_msg(to: Seq<char>, err: Seq<char>) -> Seq<char> {
    "THIS RENAME IS INCOMPLETE: the entity moved to '"@ + to + "', but its mailbox could not be repointed, so mail addressed to it may not be found on the next boot. Tell the operator — repairing it takes a person. The mailbox world said: "@ + err
}

/// Mailbox taken.
pub open spec fn mailbox_taken_msg(new_name: Seq<char>, owner: Seq<char>, from: Seq<char>, to: Seq<char>) -> Seq<char> {
    "Nothing was renamed. The mailbox '"@ + new_name + "' already belongs to "@ + owner + ", so renaming '"@ + from + "' to '"@ + to + "' would collide with it before the entity itself moved. Choose a destination whose slug is not already a mailbox name."@
}

/// Self parent.
pub open spec fn self_parent_msg(attempted: Seq<char>) -> Seq<char> {
    "Nothing was renamed. '"@ + attempted + "' names itself as its parent, and nothing is its own parent. No override_token lifts this. Name the entity this one sits under, or leave parent off to leave the current parent alone."@
}

/// Unknown parent.
pub open spec fn unknown_parent_msg(attempted: Seq<char>, from: Seq<char>) -> Seq<char> {
    "Nothing was renamed. '"@ + attempted + "' is the parent this call named, and it is not an entity jojobot knows. No override_token lifts this: nothing is created as a side effect of renaming something else. Create '"@ + attempted + "' with its own add_entity call first, then re-call this one — or drop the parent to leave '"@ + from + "' under its current parent."@
}

/// Box incomplete.
pub open spec fn box_incomplete_msg(name: Seq<char>, said: Seq<char>) -> Seq<char> {
    "THIS IDENTITY IS INCOMPLETE: the bot exists, but its box '"@ + name + "' could not be opened, so it cannot receive mail and nothing can be posted to it. Tell the operator — repairing it takes a person."@ + said
}

/// Mailbox world said.
pub open spec fn mailbox_world_said_msg(err: Seq<char>) -> Seq<char> {
    " The mailbox world said: "@ + err
}
fn rename_incomplete_text(to: &str, err: &str) -> (m: String)
    ensures
        m@ == rename_incomplete_msg(to@, err@),
{
    let mut m = text("THIS RENAME IS INCOMPLETE: the entity moved to '");
    push_str(&mut m, to);
    push_str(&mut m, "', but its mailbox could not be repointed, so mail addressed to it may not be found on the next boot. Tell the operator — repairing it takes a person. The mailbox world said: ");
    push_str(&mut m, err);
    m
}

fn mailbox_taken_text(new_name: &str, owner: &str, from: &str, to: &str) -> (m: String)
    ensures
        m@ == mailbox_taken_msg(new_name@, owner@, from@, to@),
{
    let mut m = text("Nothing was renamed. The mailbox '");
    push_str(&mut m, new_name);
    push_str(&mut m, "' already belongs to ");
    push_str(&mut m, owner);
    push_str(&mut m, ", so renaming '");
    push_str(&mut m, from);
    push_str(&mut m, "' to '");
    push_str(&mut m, to);
    push_str(&mut m, "' would collide with it before the entity itself moved. Choose a destination whose slug is not already a mailbox name.");
    m
}

fn self_parent_text(attempted: &str) -> (m: String)
    ensures
        m@ == self_parent_msg(attempted@),
{
    let mut m = text("Nothing was renamed. '");
    push_str(&mut m, attempted);
    push_str(&mut m, "' names itself as its parent, and nothing is its own parent. No override_token lifts this. Name the entity this one sits under, or leave parent off to leave the current parent alone.");
    m
}

fn unknown_parent_text(attempted: &str, from: &str) -> (m: String)
    ensures
        m@ == unknown_parent_msg(attempted@, from@),
{
    let mut m = text("Nothing was renamed. '");
    push_str(&mut m, attempted);
    push_str(&mut m, "' is the parent this call named, and it is not an entity jojobot knows. No override_token lifts this: nothing is created as a side effect of renaming something else. Create '");
    push_str(&mut m, attempted);
    push_str(&mut m, "' with its own add_entity call first, then re-call this one — or drop the parent to leave '");
    push_str(&mut m, from);
    push_str(&mut m, "' under its current parent.");
    m
}

fn box_incomplete_text(name: &str, said: &str) -> (m: String)
    ensures
        m@ == box_incomplete_msg(name@, said@),
{
    let mut m = text("THIS IDENTITY IS INCOMPLETE: the bot exists, but its box '");
    push_str(&mut m, name);
    push_str(&mut m, "' could not be opened, so it cannot receive mail and nothing can be posted to it. Tell the operator — repairing it takes a person.");
    push_str(&mut m, said);
    m
}

fn mailbox_world_said_text(err: &str) -> (m: String)
    ensures
        m@ == mailbox_world_said_msg(err@),
{
    let mut m = text(" The mailbox world said: ");
    push_str(&mut m, err);
    m
}

/// **The identity is incomplete, and says so rather than reading as whole**:
/// the bot was written, its box was not opened, and what the mailbox world
/// said, when it said anything.
pub fn box_incomplete_note(name: &str, said: Option<&str>) -> (s: String)
    ensures
        s@ == box_incomplete_msg(
            name@,
            match said {
                Some(w) => mailbox_world_said_msg(w@),
                None => Seq::empty(),
            },
        ),
{
    let tail = match said {
        Some(w) => mailbox_world_said_text(w),
        None => String::new(),
    };
    box_incomplete_text(name, tail.as_str())
}

/// **The rename is incomplete**: the entity moved and its mailbox did not.
pub fn rename_incomplete_note(to: &EntityId, err: &str) -> (s: String)
    ensures
        s@ == rename_incomplete_msg(to@, err@),
{
    rename_incomplete_text(to.0.as_str(), err)
}

/// A mailbox, and the entity that owns it.
#[derive(Debug)]
pub struct Mailbox {
    pub name: String,
    pub owner: EntityId,
}

/// Whether `owner` owns any of the boxes.
pub open spec fn owns_a_box(boxes: Seq<Mailbox>, owner: Seq<char>) -> bool {
    exists|i: int| 0 <= i < boxes.len() && boxes[i].owner@ == owner
}

/// The owner of the first box called `name` that `from` does not own.
pub open spec fn colliding_owner(boxes: Seq<Mailbox>, name: Seq<char>, from: Seq<char>) -> Option<Seq<char>>
    decreases boxes.len(),
{
    if boxes.len() == 0 {
        None
    } else if boxes[0].name@ == name && boxes[0].owner@ != from {
        Some(boxes[0].owner@)
    } else {
        colliding_owner(boxes.drop_first(), name, from)
    }
}

/// **Refuse a rename before anything moves, when its destination mailbox
/// name is already worn by a different box** — only when `from` owns a box,
/// since otherwise nothing will be repointed.
pub fn mailbox_rename_collision(boxes: &Vec<Mailbox>, from: &EntityId, to: &EntityId) -> (r: Option<BlockedAnswer>)
    ensures
        if !owns_a_box(boxes@, from@) {
            r is None
        } else {
            match colliding_owner(boxes@, slug_of(to@), from@) {
                None => r is None,
                Some(owner) => r matches Some(b) && b.wf() && b@ == (
                    to@,
                    Seq::<<EntityMatch as View>::V>::empty(),
                    mailbox_taken_msg(slug_of(to@), owner, from@, to@),
                ),
            }
        },
{
    let mut owned = false;
    let mut i: usize = 0;
    while i < boxes.len()
        invariant
            i <= boxes.len(),
            owned == exists|j: int| 0 <= j < i && boxes@[j].owner@ == from@,
        decreases boxes.len() - i,
    {
        if same_text(boxes[i].owner.0.as_str(), from.0.as_str()) {
            owned = true;
        }
        i = i + 1;
    }
    if !owned {
        return None;
    }
    assert(owns_a_box(boxes@, from@));
    let new_name = to.slug();
    let mut k: usize = 0;
    assert(boxes@.subrange(0, boxes@.len() as int) =~= boxes@);
    while k < boxes.len()
        invariant
            k <= boxes.len(),
            owns_a_box(boxes@, from@),
            new_name@ == slug_of(to@),
            colliding_owner(boxes@, new_name@, from@) == colliding_owner(boxes@.subrange(k as int, boxes@.len() as int), new_name@, from@),
        decreases boxes.len() - k,
    {
        let ghost rest = boxes@.subrange(k as int, boxes@.len() as int);
        assert(rest.drop_first() =~= boxes@.subrange(k + 1, boxes@.len() as int));
        let b = &boxes[k];
        if same_text(b.name.as_str(), new_name.as_str()) && !same_text(b.owner.0.as_str(), from.0.as_str()) {
            assert(rest[0] == boxes@[k as int]);
            assert(colliding_owner(rest, new_name@, from@) == Some(b.owner@));
            let how = mailbox_taken_text(new_name.as_str(), b.owner.0.as_str(), from.0.as_str(), to.0.as_str());
            proof {
                reveal_strlit("Nothing was renamed. The mailbox '");
                assert(matches_view(Seq::<EntityMatch>::empty()) =~= Seq::empty());
                assert(new_name@ == slug_of(to@));
                assert(colliding_owner(boxes@, slug_of(to@), from@) == Some(b.owner@));
                assert(how@.len() > 0);
            }
            return Some(blocked_body(to, Vec::new(), how));
        }
        assert(rest[0] == boxes@[k as int]);
        k = k + 1;
    }
    None
}

/// Whether any candidate says the entity names itself as its parent.
pub open spec fn names_itself(candidates: Seq<EntityMatch>) -> bool {
    exists|i: int| 0 <= i < candidates.len() && candidates[i].reason == MatchReason::SelfParent
}

fn any_self_parent(candidates: &Vec<EntityMatch>) -> (b: bool)
    ensures
        b == names_itself(candidates@),
{
    let mut i: usize = 0;
    while i < candidates.len()
        invariant
            i <= candidates.len(),
            forall|j: int| 0 <= j < i ==> candidates@[j].reason != MatchReason::SelfParent,
        decreases candidates.len() - i,
    {
        if candidates[i].reason == MatchReason::SelfParent {
            return true;
        }
        i = i + 1;
    }
    false
}

/// **How a rename's refusal reads.** A parent that is the entity itself, or
/// a parent nobody created, is not a near miss and no token lifts it; only a
/// destination that resembles something held is the guard's near miss.
pub fn rename_refusal(
    attempted: &EntityId,
    candidates: Vec<EntityMatch>,
    from: &EntityId,
    to: &EntityId,
    token: String,
) -> (b: BlockedAnswer)
    ensures
        b.wf(),
        b@ == (
            attempted@,
            matches_view(candidates@),
            if names_itself(candidates@) {
                self_parent_msg(attempted@)
            } else if attempted@ != to@ {
                unknown_parent_msg(attempted@, from@)
            } else {
                gate_advice(Blocked::Renaming { token }, attempted@, has_exact(candidates@), candidates@.len() == 0)
            },
        ),
{
    proof {
        reveal_strlit("Nothing was renamed. '");
    }
    if any_self_parent(&candidates) {
        let how = self_parent_text(attempted.0.as_str());
        blocked_body(attempted, candidates, how)
    } else if !same_text(attempted.0.as_str(), to.0.as_str()) {
        let how = unknown_parent_text(attempted.0.as_str(), from.0.as_str());
        blocked_body(attempted, candidates, how)
    } else {
        blocked_result(attempted, candidates, Blocked::Renaming { token })
    }
}

/// **What a rename names**: the entity by its handle (a bare one is a
/// person), the handle it moves to, trimmed, the parent it is put under,
/// and the day — `None` is the caller's day — or the refusal of a day that is
/// none.
#[derive(Debug)]
pub struct RenamePlan {
    pub from: EntityId,
    pub to: EntityId,
    pub parent: Option<EntityId>,
    pub recorded_at: Option<Day>,
}

/// The rename a call asks for.
pub fn rename_plan(args: &RenameEntityArgs) -> (r: Result<RenamePlan, McpError>)
    ensures
        match date_of(given_text(opt_text(args.recorded_at))) {
            Err(m) => refused(r, m),
            Ok(d) => r matches Ok(p) && p.from@ == person_handle(args.handle@) && p.to@ == trim(args.to@)
                && p.recorded_at == d && match args.parent {
                    Some(h) => p.parent matches Some(got) && got@ == person_handle(h@),
                    None => p.parent is None,
                },
        },
{
    let day = match &args.recorded_at {
        Some(d) => parse_date(Some(d.as_str())),
        None => parse_date(None),
    };
    let recorded_at = match day {
        Ok(d) => d,
        Err(e) => return Err(e),
    };
    let parent = match &args.parent {
        Some(h) => Some(EntityId::person(h.as_str())),
        None => None,
    };
    Ok(RenamePlan {
        from: EntityId::person(args.handle.as_str()),
        to: EntityId(string_of(&trimmed_str(args.to.as_str()))),
        parent,
        recorded_at,
    })
}

/// **What a merge names**: the duplicate and the survivor, each trimmed and
/// taken as written, and the day — `None` is the caller's day.
#[derive(Debug)]
pub struct MergePlan {
    pub duplicate: EntityId,
    pub survivor: EntityId,
    pub recorded_at: Option<Day>,
}

/// The merge a call asks for, or the refusal of a day that is none.
pub fn merge_plan(args: &MergeArgs) -> (r: Result<MergePlan, McpError>)
    ensures
        match date_of(given_text(opt_text(args.recorded_at))) {
            Err(m) => refused(r, m),
            Ok(d) => r matches Ok(p) && p.duplicate@ == trim(args.duplicate@) && p.survivor@ == trim(args.survivor@)
                && p.recorded_at == d,
        },
{
    let day = match &args.recorded_at {
        Some(d) => parse_date(Some(d.as_str())),
        None => parse_date(None),
    };
    let recorded_at = match day {
        Ok(d) => d,
        Err(e) => return Err(e),
    };
    Ok(MergePlan {
        duplicate: EntityId(string_of(&trimmed_str(args.duplicate.as_str()))),
        survivor: EntityId(string_of(&trimmed_str(args.survivor.as_str()))),
        recorded_at,
    })
}

} // verus!
