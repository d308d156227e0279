use vstd::prelude::*;
use crate::address::Address;
use crate::error::ErrorCode;
use crate::identifier::{derived_address, project_address, slot_view};
use crate::project::{founded, founding_verdict, lemma_founding_ok, validate_founding, Project,
    ProjectView, TOTAL_TASKS};

verus! {

/// What a creation request works on: the place of the record, which holds a
/// project where one was made there before, the caller, the time, and the
/// bump seed of the place.
#[derive(Clone, Debug, PartialEq, Eq)]
pub struct InitializeProject {
    pub project: Option<Project>,
    pub creator: Address,
    pub unix_timestamp: i64,
    pub bump: u8,
}

impl InitializeProject {
    /// The record at the place, if there is one.
    pub open spec fn record(self) -> Option<ProjectView> {
        match self.project {
            Some(p) => Some(p@),
            None => None,
        }
    }
}

/// What a creation request answers at a place: a place that is taken
/// refuses it, a free one goes by the validation of the request.
pub open spec fn initialization_verdict(
    taken: bool,
    name: Seq<char>,
    admins: Seq<Address>,
    members: Seq<Address>,
    creator: Address,
) -> Result<(), ErrorCode> {
    if taken {
        Err(ErrorCode::AlreadyExists)
    } else {
        founding_verdict(name, admins, members, creator)
    }
}

/// Makes the project of the caller at the place of the record. The place
/// must be free and the request must be valid; the new project then
/// has no task completed and an empty treasury. Where the call fails nothing
/// changes.
pub fn initialize_project(
    ctx: &mut InitializeProject,
    name: String,
    admins: Vec<Address>,
    members: Vec<Address>,
    github_enabled: bool,
    jira_enabled: bool,
) -> (r: Result<(), ErrorCode>)
    ensures
        r == initialization_verdict(
            old(ctx).project is Some,
            name@,
            admins@,
            members@,
            old(ctx).creator,
        ),
        r is Ok ==> final(ctx).record() == Some(
            founded(
                name@,
                old(ctx).creator,
                admins@,
                members@,
                github_enabled,
                jira_enabled,
                old(ctx).unix_timestamp,
                old(ctx).bump,
            ),
        ),
        r is Ok ==> final(ctx).project->0@.valid(),
        r is Err ==> *final(ctx) == *old(ctx),
        final(ctx).creator == old(ctx).creator,
        final(ctx).unix_timestamp == old(ctx).unix_timestamp,
        final(ctx).bump == old(ctx).bump,
{
    if ctx.project.is_some() {
        return Err(ErrorCode::AlreadyExists);
    }
    let checked = validate_founding(
        name.as_str(),
        admins.as_slice(),
        members.as_slice(),
        &ctx.creator,
    );
    if checked.is_err() {
        return checked;
    }
    proof {
        lemma_founding_ok(name@, admins@, members@, ctx.creator);
    }
    ctx.project = Some(
        Project {
            name,
            creator: ctx.creator,
            admins,
            members,
            github_enabled,
            jira_enabled,
            created_at: ctx.unix_timestamp,
            tasks_completed: 0,
            total_tasks: TOTAL_TASKS,
            treasury_balance: 0,
            bump: ctx.bump,
        },
    );
    Ok(())
}

/// What a creation request answers to a store of records. `slot` is the
/// identifier derived for the project, with its bump seed. A record at that
/// identifier refuses the request; then comes the validation of the request; a
/// request that passes it, but has no identifier, is refused as well.
pub open spec fn creation_verdict(
    records: Map<Seq<u8>, ProjectView>,
    slot: Option<(Seq<u8>, u8)>,
    name: Seq<char>,
    admins: Seq<Address>,
    members: Seq<Address>,
    creator: Address,
) -> Result<(), ErrorCode> {
    match slot {
        Some((id, bump)) => initialization_verdict(
            records.contains_key(id),
            name,
            admins,
            members,
            creator,
        ),
        None => if founding_verdict(name, admins, members, creator) is Err {
            founding_verdict(name, admins, members, creator)
        } else {
            Err(ErrorCode::NoProjectAddress)
        },
    }
}

/// The records after a creation request: with the new project under its
/// identifier where the request is granted, as before where it is not.
pub open spec fn created(
    records: Map<Seq<u8>, ProjectView>,
    slot: Option<(Seq<u8>, u8)>,
    name: Seq<char>,
    creator: Address,
    admins: Seq<Address>,
    members: Seq<Address>,
    github_enabled: bool,
    jira_enabled: bool,
    created_at: i64,
) -> Map<Seq<u8>, ProjectView> {
    match slot {
        Some((id, bump)) => if creation_verdict(records, slot, name, admins, members, creator)
            is Ok {
            records.insert(
                id,
                founded(
                    name,
                    creator,
                    admins,
                    members,
                    github_enabled,
                    jira_enabled,
                    created_at,
                    bump,
                ),
            )
        } else {
            records
        },
        None => records,
    }
}

/// A project is made once: after a creation that was granted, every further
/// creation under the same name and by the same creator is refused with
/// `AlreadyExists`, whatever else it asks for, and the records stay as the
/// first creation left them.
pub proof fn law_creation_is_not_repeated(
    records: Map<Seq<u8>, ProjectView>,
    program: Address,
    name: Seq<char>,
    creator: Address,
    admins: Seq<Address>,
    members: Seq<Address>,
    github_enabled: bool,
    jira_enabled: bool,
    created_at: i64,
    admins_again: Seq<Address>,
    members_again: Seq<Address>,
    github_again: bool,
    jira_again: bool,
    created_again: i64,
)
    requires
        creation_verdict(
            records,
            derived_address(name, creator, program),
            name,
            admins,
            members,
            creator,
        ) is Ok,
    ensures
        ({
            let slot = derived_address(name, creator, program);
            let after = created(
                records,
                slot,
                name,
                creator,
                admins,
                members,
                github_enabled,
                jira_enabled,
                created_at,
            );
            &&& creation_verdict(after, slot, name, admins_again, members_again, creator) == Err::<
                (),
                ErrorCode,
            >(ErrorCode::AlreadyExists)
            &&& created(
                after,
                slot,
                name,
                creator,
                admins_again,
                members_again,
                github_again,
                jira_again,
                created_again,
            ) == after
        }),
{
}

/// A record with the identifier that it is kept under.
#[derive(Clone, Debug)]
struct Entry {
    id: Address,
    project: Project,
}

/// The projects of one program, each under the identifier derived from its
/// name and its creator. No identifier is used twice.
#[derive(Clone, Debug)]
pub struct Registry {
    program: Address,
    entries: Vec<Entry>,
}

impl View for Registry {
    type V = Map<Seq<u8>, ProjectView>;

    /// The records, by the bytes of their identifiers.
    closed spec fn view(&self) -> Map<Seq<u8>, ProjectView> {
        Map::new(
            |id: Seq<u8>| exists|i: int| self.keeps(id, i),
            |id: Seq<u8>| self.entries@[choose|i: int| self.keeps(id, i)].project@,
        )
    }
}

impl Registry {
    /// The invariant of a registry: no identifier is used twice.
    pub closed spec fn wf(&self) -> bool {
        forall|i: int, j: int|
            0 <= i < j < self.entries@.len() ==> self.entries@[i].id != self.entries@[j].id
    }

    /// Whether the entry at `i` is kept under `id`.
    spec fn keeps(&self, id: Seq<u8>, i: int) -> bool {
        0 <= i < self.entries@.len() && self.entries@[i].id@ == id
    }

    /// The program whose projects these are.
    pub closed spec fn program(&self) -> Address {
        self.program
    }

    /// In a registry without a repeated identifier, the entry under an
    /// identifier is the one that the view shows.
    proof fn lemma_entry(&self, id: Seq<u8>, i: int)
        requires
            self.wf(),
            self.keeps(id, i),
        ensures
            self@.contains_key(id),
            self@[id] == self.entries@[i].project@,
    {
        let k = choose|k: int| self.keeps(id, k);
        self.entries@[k].id.lemma_same_bytes(self.entries@[i].id);
    }

    /// An empty registry for the projects of `program`.
    pub fn new(program: Address) -> (r: Registry)
        ensures
            r.wf(),
            r@ == Map::<Seq<u8>, ProjectView>::empty(),
            r.program() == program,
    {
        let r = Registry { program, entries: Vec::new() };
        assert(r@ =~= Map::<Seq<u8>, ProjectView>::empty());
        r
    }

    /// The program whose projects these are.
    pub fn program_id(&self) -> (r: Address)
        ensures
            r == self.program(),
    {
        self.program
    }

    /// Where the record under `id` stands, if there is one.
    fn position(&self, id: &Address) -> (r: Option<usize>)
        ensures
            match r {
                Some(i) => self.keeps(id@, i as int),
                None => forall|i: int| !self.keeps(id@, i),
            },
    {
        let n = self.entries.len();
        let mut i: usize = 0;
        while i < n
            invariant
                n == self.entries@.len(),
                0 <= i <= n,
                forall|k: int| 0 <= k < i ==> !self.keeps(id@, k),
            decreases n - i,
        {
            if self.entries[i].id == *id {
                return Some(i);
            }
            proof {
                if self.entries@[i as int].id@ == id@ {
                    self.entries@[i as int].id.lemma_same_bytes(*id);
                }
            }
            i += 1;
        }
        None
    }

    /// Tells whether a record stands under `id`.
    pub fn contains(&self, id: &Address) -> (r: bool)
        ensures
            r == self@.contains_key(id@),
    {
        self.position(id).is_some()
    }

    /// The record under `id`, if there is one.
    pub fn get(&self, id: &Address) -> (r: Option<&Project>)
        requires
            self.wf(),
        ensures
            match r {
                Some(p) => self@.contains_key(id@) && self@[id@] == p@,
                None => !self@.contains_key(id@),
            },
    {
        match self.position(id) {
            Some(i) => {
                proof {
                    self.lemma_entry(id@, i as int);
                }
                Some(&self.entries[i].project)
            },
            None => None,
        }
    }

    /// Writes a new state of the record under `id`. Where no record stands
    /// there nothing is written, and the answer is `false`.
    pub fn commit(&mut self, id: &Address, project: Project) -> (r: bool)
        requires
            old(self).wf(),
        ensures
            final(self).wf(),
            r == old(self)@.contains_key(id@),
            r ==> final(self)@ == old(self)@.insert(id@, project@),
            !r ==> final(self)@ == old(self)@,
            final(self).program() == old(self).program(),
    {
        match self.position(id) {
            Some(i) => {
                let ghost before = *self;
                let kept = self.entries[i].id;
                self.entries.set(i, Entry { id: kept, project });
                proof {
                    assert(self.entries@ == before.entries@.update(
                        i as int,
                        Entry { id: kept, project },
                    ));
                    assert forall|k: Seq<u8>, j: int| before.keeps(k, j) == self.keeps(k, j) by {}
                    assert(self.wf());
                    before.lemma_entry(id@, i as int);
                    self.lemma_entry(id@, i as int);
                    let after = before@.insert(id@, project@);
                    assert forall|k: Seq<u8>| #[trigger] self@.contains_key(k) implies
                        after.contains_key(k) && self@[k] == after[k] by {
                        let j = choose|j: int| self.keeps(k, j);
                        self.lemma_entry(k, j);
                        assert(before.keeps(k, j));
                        before.lemma_entry(k, j);
                        if j != i {
                            if k == id@ {
                                before.entries@[j].id.lemma_same_bytes(before.entries@[i as int].id);
                            }
                        }
                    }
                    assert forall|k: Seq<u8>| #[trigger] after.contains_key(k) implies
                        self@.contains_key(k) by {
                        if k != id@ {
                            let j = choose|j: int| before.keeps(k, j);
                            assert(self.keeps(k, j));
                        }
                    }
                    assert(self@ =~= after);
                }
                true
            },
            None => false,
        }
    }

    /// Makes a project under an identifier that was derived for it. `slot`
    /// is the identifier with its bump seed, or `None` where none could be
    /// derived. The request is refused where a record stands under the
    /// identifier, where it is not valid, and where there is no
    /// identifier; the registry is then as before.
    pub fn create_at(
        &mut self,
        slot: Option<(Address, u8)>,
        name: String,
        admins: Vec<Address>,
        members: Vec<Address>,
        github_enabled: bool,
        jira_enabled: bool,
        creator: Address,
        created_at: i64,
    ) -> (r: Result<(), ErrorCode>)
        requires
            old(self).wf(),
        ensures
            final(self).wf(),
            r == creation_verdict(old(self)@, slot_view(slot), name@, admins@, members@, creator),
            final(self)@ == created(
                old(self)@,
                slot_view(slot),
                name@,
                creator,
                admins@,
                members@,
                github_enabled,
                jira_enabled,
                created_at,
            ),
            final(self).program() == old(self).program(),
    {
        let (id, bump) = match slot {
            Some(found) => found,
            None => {
                let checked = validate_founding(
                    name.as_str(),
                    admins.as_slice(),
                    members.as_slice(),
                    &creator,
                );
                if checked.is_err() {
                    return checked;
                }
                return Err(ErrorCode::NoProjectAddress);
            },
        };
        if self.position(&id).is_some() {
            return Err(ErrorCode::AlreadyExists);
        }
        let mut ctx = InitializeProject { project: None, creator, unix_timestamp: created_at, bump };
        let made = initialize_project(
            &mut ctx,
            name,
            admins,
            members,
            github_enabled,
            jira_enabled,
        );
        if made.is_err() {
            return made;
        }
        let ghost before = *self;
        let project = ctx.project.unwrap();
        self.entries.push(Entry { id, project });
        proof {
            let last = before.entries@.len() as int;
            assert forall|i: int| 0 <= i < last implies self.entries@[i].id != id by {
                assert(!before.keeps(id@, i));
            }
            assert(self.keeps(id@, last));
            self.lemma_entry(id@, last);
            assert forall|k: Seq<u8>| #[trigger]
                self@.contains_key(k) && k != id@ implies before@.contains_key(k) && self@[k]
                == before@[k] by {
                let j = choose|j: int| self.keeps(k, j);
                self.lemma_entry(k, j);
                assert(before.keeps(k, j));
                before.lemma_entry(k, j);
            }
            assert forall|k: Seq<u8>| #[trigger] before@.contains_key(k) implies self@.contains_key(
                k,
            ) by {
                let j = choose|j: int| before.keeps(k, j);
                assert(self.keeps(k, j));
            }
            assert(self@ =~= before@.insert(id@, project@));
        }
        Ok(())
    }

    /// Makes the project of `requester` under the identifier derived from
    /// its name and `requester`, and gives the identifier back. A second
    /// project under the same name and creator is refused.
    pub fn create(
        &mut self,
        name: String,
        admins: Vec<Address>,
        members: Vec<Address>,
        github_enabled: bool,
        jira_enabled: bool,
        requester: Address,
        created_at: i64,
    ) -> (r: Result<Address, ErrorCode>)
        requires
            old(self).wf(),
        ensures
            final(self).wf(),
            match r {
                Ok(id) => {
                    &&& creation_verdict(
                        old(self)@,
                        derived_address(name@, requester, old(self).program()),
                        name@,
                        admins@,
                        members@,
                        requester,
                    ) is Ok
                    &&& derived_address(name@, requester, old(self).program()) matches Some(slot)
                        && slot.0 == id@
                },
                Err(e) => creation_verdict(
                    old(self)@,
                    derived_address(name@, requester, old(self).program()),
                    name@,
                    admins@,
                    members@,
                    requester,
                ) == Err::<(), ErrorCode>(e),
            },
            final(self)@ == created(
                old(self)@,
                derived_address(name@, requester, old(self).program()),
                name@,
                requester,
                admins@,
                members@,
                github_enabled,
                jira_enabled,
                created_at,
            ),
            final(self).program() == old(self).program(),
    {
        let slot = project_address(name.as_str(), &requester, &self.program);
        let made = self.create_at(
            slot,
            name,
            admins,
            members,
            github_enabled,
            jira_enabled,
            requester,
            created_at,
        );
        match (made, slot) {
            (Ok(()), Some((id, _))) => Ok(id),
            (Ok(()), None) => Err(ErrorCode::NoProjectAddress),
            (Err(e), _) => Err(e),
        }
    }
}

} // verus!
