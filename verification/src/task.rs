//! Commands on project tasks.

use vstd::prelude::*;
use vstd::string::*;
use crate::error::{duplicate_key_text, CommandError, Entity, Field};
use crate::codec::moment_text;
use crate::identity::{generate_id, get_current_timestamp, is_random_uuid_text};
use crate::model::{
    Persona, PersonaView, ProjectTask, ProjectTaskView, Row, Timestamp, Workstream, WorkstreamView,
};
use crate::reply::{deleted_message, deleted_text};
use crate::store::{holds_fresh_shape, index_of, index_of_is_the_place, Store};
use crate::table::{has_key, newest_first, sort_newest_first, views};
use crate::text::{copy_optional, optional_text, same_text, strip_quotes, trim_quotes};
use crate::vocab::{Priority, TaskStatus};

verus! {

/// The task that a creation puts on record: without dates, hours, tags or
/// dependencies, and last changed when it was created.
pub open spec fn new_task(
    id: Seq<char>,
    now: Timestamp,
    workstream_id: Seq<char>,
    title: Seq<char>,
    description: Option<Seq<char>>,
    status: TaskStatus,
    priority: Priority,
) -> ProjectTaskView {
    ProjectTaskView {
        id,
        workstream_id,
        title,
        description,
        status,
        priority,
        due_date: None,
        completed_date: None,
        estimated_hours: None,
        actual_hours: None,
        tags: Seq::empty(),
        dependencies: Seq::empty(),
        created_at: now,
        updated_at: now,
    }
}

/// A task after an update at `now`: status and priority are replaced, a
/// supplied title or description replaces the old one, all else stays.
pub open spec fn merged_task(
    before: ProjectTaskView,
    title: Option<Seq<char>>,
    description: Option<Seq<char>>,
    status: TaskStatus,
    priority: Priority,
    now: Timestamp,
) -> ProjectTaskView {
    ProjectTaskView {
        title: match title {
            Some(t) => t,
            None => before.title,
        },
        description: match description {
            Some(d) => Some(d),
            None => before.description,
        },
        status,
        priority,
        updated_at: now,
        ..before
    }
}

/// The tasks of `rows` that belong to the workstream `workstream_id`, in
/// the order of `rows`.
pub open spec fn tasks_of(rows: Seq<ProjectTaskView>, workstream_id: Seq<char>) -> Seq<
    ProjectTaskView,
> {
    rows.filter(|t: ProjectTaskView| t.workstream_id == workstream_id)
}

/// A task together with the name of its workstream and the identifier,
/// name and colour of that workstream's persona.
#[derive(Clone, Debug, PartialEq, Eq)]
pub struct TaskListing {
    pub task: ProjectTask,
    pub workstream_name: String,
    pub persona_id: String,
    pub persona_name: String,
    pub persona_color: String,
}

/// A listed task as a mathematical value.
pub struct TaskListingView {
    pub task: ProjectTaskView,
    pub workstream_name: Seq<char>,
    pub persona_id: Seq<char>,
    pub persona_name: Seq<char>,
    pub persona_color: Seq<char>,
}

impl View for TaskListing {
    type V = TaskListingView;

    open spec fn view(&self) -> TaskListingView {
        TaskListingView {
            task: self.task@,
            workstream_name: self.workstream_name@,
            persona_id: self.persona_id@,
            persona_name: self.persona_name@,
            persona_color: self.persona_color@,
        }
    }
}

impl Row for TaskListing {
    open spec fn key_of(v: TaskListingView) -> Seq<char> {
        v.task.id
    }

    open spec fn created_of(v: TaskListingView) -> Timestamp {
        v.task.created_at
    }

    fn key(&self) -> (r: &String) {
        &self.task.id
    }

    fn created(&self) -> (r: Timestamp) {
        self.task.created_at
    }

    fn duplicate(&self) -> (r: TaskListing) {
        TaskListing {
            task: self.task.duplicate(),
            workstream_name: self.workstream_name.clone(),
            persona_id: self.persona_id.clone(),
            persona_name: self.persona_name.clone(),
            persona_color: self.persona_color.clone(),
        }
    }
}

/// Whether the workstream of `task` and the persona of that workstream
/// are both on record.
pub open spec fn is_listed(
    task: ProjectTaskView,
    workstreams: Seq<WorkstreamView>,
    personas: Seq<PersonaView>,
) -> bool {
    &&& has_key::<Workstream>(workstreams, task.workstream_id)
    &&& has_key::<Persona>(
        personas,
        workstreams[index_of::<Workstream>(workstreams, task.workstream_id)].persona_id,
    )
}

/// The task with what is shown of its workstream and persona; meaningful
/// where `is_listed` holds.
pub open spec fn listing_of(
    task: ProjectTaskView,
    workstreams: Seq<WorkstreamView>,
    personas: Seq<PersonaView>,
) -> TaskListingView {
    let w = workstreams[index_of::<Workstream>(workstreams, task.workstream_id)];
    let p = personas[index_of::<Persona>(personas, w.persona_id)];
    TaskListingView {
        task,
        workstream_name: w.name,
        persona_id: w.persona_id,
        persona_name: p.name,
        persona_color: p.color,
    }
}

/// Each task of `rows` whose workstream and persona are on record, with
/// what is shown of them, in the order of `rows`. Other tasks are left out.
pub open spec fn task_listings(
    rows: Seq<ProjectTaskView>,
    workstreams: Seq<WorkstreamView>,
    personas: Seq<PersonaView>,
) -> Seq<TaskListingView>
    decreases rows.len(),
{
    if rows.len() == 0 {
        Seq::empty()
    } else {
        let rest = task_listings(rows.drop_last(), workstreams, personas);
        if is_listed(rows.last(), workstreams, personas) {
            rest.push(listing_of(rows.last(), workstreams, personas))
        } else {
            rest
        }
    }
}

impl Store {
    /// Puts a new task with identifier `id` on record, created at `now`.
    /// The checks come in this order, and each failure changes nothing:
    /// the workstream must be on record; the status must be one of its five
    /// tokens; the priority must be one of its four tokens; the identifier
    /// must be free.
    pub fn insert_project_task(
        &mut self,
        id: String,
        now: Timestamp,
        workstream_id: String,
        title: String,
        description: Option<String>,
        status: String,
        priority: String,
    ) -> (r: Result<ProjectTask, CommandError>)
        ensures
            old(self)@.well_formed() ==> final(self)@.well_formed(),
            r is Err ==> final(self)@ == old(self)@,
            match r {
                Ok(t) => {
                    &&& has_key::<Workstream>(old(self)@.workstreams, workstream_id@)
                    &&& TaskStatus::of_text(status@) == Some(t@.status)
                    &&& Priority::of_text(priority@) == Some(t@.priority)
                    &&& !has_key::<ProjectTask>(old(self)@.tasks, id@)
                    &&& t@ == new_task(
                        id@,
                        now,
                        workstream_id@,
                        title@,
                        optional_text(description),
                        t@.status,
                        t@.priority,
                    )
                    &&& final(self)@ == old(self)@.with_tasks(old(self)@.tasks.push(t@))
                },
                Err(e) => {
                    if !has_key::<Workstream>(old(self)@.workstreams, workstream_id@) {
                        e.is_referential(Entity::Workstream, workstream_id@)
                    } else if TaskStatus::of_text(status@) is None {
                        e.is_invalid_argument(Field::TaskStatus, status@)
                    } else if Priority::of_text(priority@) is None {
                        e.is_invalid_argument(Field::Priority, priority@)
                    } else {
                        &&& has_key::<ProjectTask>(old(self)@.tasks, id@)
                        &&& e.is_storage(duplicate_key_text(Entity::ProjectTask))
                    }
                },
            },
    {
        if self.workstreams.find(workstream_id.as_str()).is_none() {
            return Err(CommandError::Referential { parent: Entity::Workstream, id: workstream_id });
        }
        let parsed_status = match TaskStatus::parse(status.as_str()) {
            None => {
                return Err(CommandError::InvalidArgument { field: Field::TaskStatus, value: status });
            },
            Some(s) => s,
        };
        let parsed_priority = match Priority::parse(priority.as_str()) {
            None => {
                return Err(
                    CommandError::InvalidArgument { field: Field::Priority, value: priority },
                );
            },
            Some(p) => p,
        };
        let task = ProjectTask {
            id,
            workstream_id,
            title,
            description,
            status: parsed_status,
            priority: parsed_priority,
            due_date: None,
            completed_date: None,
            estimated_hours: None,
            actual_hours: None,
            tags: Vec::new(),
            dependencies: Vec::new(),
            created_at: now,
            updated_at: now,
        };
        assert(task@.tags =~= Seq::<Seq<char>>::empty());
        assert(task@.dependencies =~= Seq::<Seq<char>>::empty());
        let copy = task.duplicate();
        if self.tasks.insert(task) {
            Ok(copy)
        } else {
            Err(CommandError::duplicate_key(Entity::ProjectTask))
        }
    }

    /// Creates a task under a fresh identifier, stamped with the current
    /// time. The checks come in this order, and each failure changes
    /// nothing: the workstream must be on record; the status must be one of
    /// its five tokens; the priority must be one of its four tokens; the
    /// fresh identifier must be free, which it is wherever no task on
    /// record carries an identifier of the shape that fresh ones have.
    pub fn create_project_task(
        &mut self,
        workstream_id: String,
        title: String,
        description: Option<String>,
        status: String,
        priority: String,
    ) -> (r: Result<ProjectTask, CommandError>)
        ensures
            old(self)@.well_formed() ==> final(self)@.well_formed(),
            r is Err ==> final(self)@ == old(self)@,
            match r {
                Ok(t) => {
                    &&& is_random_uuid_text(t@.id)
                    &&& moment_text(t@.created_at) is Some
                    &&& has_key::<Workstream>(old(self)@.workstreams, workstream_id@)
                    &&& TaskStatus::of_text(status@) == Some(t@.status)
                    &&& Priority::of_text(priority@) == Some(t@.priority)
                    &&& !has_key::<ProjectTask>(old(self)@.tasks, t@.id)
                    &&& t@ == new_task(
                        t@.id,
                        t@.created_at,
                        workstream_id@,
                        title@,
                        optional_text(description),
                        t@.status,
                        t@.priority,
                    )
                    &&& final(self)@ == old(self)@.with_tasks(old(self)@.tasks.push(t@))
                },
                Err(e) => {
                    if !has_key::<Workstream>(old(self)@.workstreams, workstream_id@) {
                        e.is_referential(Entity::Workstream, workstream_id@)
                    } else if TaskStatus::of_text(status@) is None {
                        e.is_invalid_argument(Field::TaskStatus, status@)
                    } else if Priority::of_text(priority@) is None {
                        e.is_invalid_argument(Field::Priority, priority@)
                    } else {
                        &&& holds_fresh_shape::<ProjectTask>(old(self)@.tasks)
                        &&& e.is_storage(duplicate_key_text(Entity::ProjectTask))
                    }
                },
            },
    {
        let id = generate_id();
        let now = get_current_timestamp();
        self.insert_project_task(id, now, workstream_id, title, description, status, priority)
    }

    /// The tasks of the workstream `workstream_id`, latest creation first.
    pub fn get_tasks_by_workstream(&self, workstream_id: String) -> (r: Vec<ProjectTask>)
        ensures
            newest_first::<ProjectTask>(views(r@)),
            views(r@).to_multiset() == tasks_of(self@.tasks, workstream_id@).to_multiset(),
    {
        let all = self.tasks.snapshot();
        let mut chosen: Vec<ProjectTask> = Vec::new();
        let mut i: usize = 0;
        assert(views(chosen@) =~= tasks_of(views(all@).take(0), workstream_id@)) by {
            reveal(Seq::filter);
        }
        while i < all.len()
            invariant
                i <= all.len(),
                views(chosen@) == tasks_of(views(all@).take(i as int), workstream_id@),
            decreases all.len() - i,
        {
            let ghost before = views(chosen@);
            proof {
                reveal(Seq::filter);
                assert(views(all@).take(i + 1).drop_last() =~= views(all@).take(i as int));
                assert(views(all@).take(i + 1).last() == all@[i as int]@);
            }
            if same_text(all[i].workstream_id.as_str(), workstream_id.as_str()) {
                chosen.push(all[i].duplicate());
                assert(views(chosen@) =~= before.push(all@[i as int]@));
            }
            i = i + 1;
        }
        assert(views(all@).take(i as int) =~= views(all@));
        sort_newest_first(chosen)
    }

    /// Every task whose workstream and persona are on record, with what is
    /// shown of them, latest creation first.
    pub fn get_all_project_tasks(&self) -> (r: Vec<TaskListing>)
        ensures
            newest_first::<TaskListing>(views(r@)),
            views(r@).to_multiset() == task_listings(
                self@.tasks,
                self@.workstreams,
                self@.personas,
            ).to_multiset(),
    {
        let all = self.tasks.snapshot();
        let mut joined: Vec<TaskListing> = Vec::new();
        let mut i: usize = 0;
        assert(views(joined@) =~= task_listings(
            views(all@).take(0),
            self@.workstreams,
            self@.personas,
        ));
        while i < all.len()
            invariant
                i <= all.len(),
                views(joined@) == task_listings(
                    views(all@).take(i as int),
                    self@.workstreams,
                    self@.personas,
                ),
            decreases all.len() - i,
        {
            let ghost before = views(joined@);
            proof {
                assert(views(all@).take(i + 1).drop_last() =~= views(all@).take(i as int));
                assert(views(all@).take(i + 1).last() == all@[i as int]@);
            }
            match self.workstreams.find(all[i].workstream_id.as_str()) {
                None => {},
                Some(j) => {
                    proof {
                        index_of_is_the_place::<Workstream>(self.workstreams@, j as int);
                    }
                    let workstream = self.workstreams.get(j);
                    match self.personas.find(workstream.persona_id.as_str()) {
                        None => {},
                        Some(k) => {
                            proof {
                                index_of_is_the_place::<Persona>(self.personas@, k as int);
                            }
                            let persona = self.personas.get(k);
                            let listing = TaskListing {
                                task: all[i].duplicate(),
                                workstream_name: workstream.name.clone(),
                                persona_id: workstream.persona_id.clone(),
                                persona_name: persona.name.clone(),
                                persona_color: persona.color.clone(),
                            };
                            let ghost v = listing@;
                            joined.push(listing);
                            assert(views(joined@) =~= before.push(v));
                        },
                    }
                },
            }
            i = i + 1;
        }
        assert(views(all@).take(i as int) =~= views(all@));
        sort_newest_first(joined)
    }

    /// Updates the task `id` at `now`. Quotes around `status` and
    /// `priority` are dropped before they are read. The checks come in this
    /// order, and each failure changes nothing: a task must carry `id`; the
    /// status must be one of its five tokens; the priority must be one of
    /// its four tokens. Then status and priority are replaced, a supplied
    /// title or description replaces the old one, and all else stays.
    pub fn merge_project_task(
        &mut self,
        id: &str,
        title: Option<String>,
        description: Option<String>,
        status: &str,
        priority: &str,
        now: Timestamp,
    ) -> (r: Result<ProjectTask, CommandError>)
        ensures
            old(self)@.well_formed() ==> final(self)@.well_formed(),
            r is Err ==> final(self)@ == old(self)@,
            match r {
                Ok(t) => {
                    let i = index_of::<ProjectTask>(old(self)@.tasks, id@);
                    &&& has_key::<ProjectTask>(old(self)@.tasks, id@)
                    &&& TaskStatus::of_text(strip_quotes(status@)) == Some(t@.status)
                    &&& Priority::of_text(strip_quotes(priority@)) == Some(t@.priority)
                    &&& t@ == merged_task(
                        old(self)@.tasks[i],
                        optional_text(title),
                        optional_text(description),
                        t@.status,
                        t@.priority,
                        now,
                    )
                    &&& final(self)@ == old(self)@.with_tasks(old(self)@.tasks.update(i, t@))
                },
                Err(e) => {
                    if !has_key::<ProjectTask>(old(self)@.tasks, id@) {
                        e.is_not_found(Entity::ProjectTask, id@)
                    } else if TaskStatus::of_text(strip_quotes(status@)) is None {
                        e.is_invalid_argument(Field::TaskStatus, strip_quotes(status@))
                    } else {
                        &&& Priority::of_text(strip_quotes(priority@)) is None
                        &&& e.is_invalid_argument(Field::Priority, strip_quotes(priority@))
                    }
                },
            },
    {
        let i = match self.tasks.find(id) {
            None => {
                return Err(
                    CommandError::NotFound { entity: Entity::ProjectTask, id: String::from_str(id) },
                );
            },
            Some(i) => i,
        };
        proof {
            index_of_is_the_place::<ProjectTask>(self.tasks@, i as int);
        }
        let cleaned_status = trim_quotes(status);
        let cleaned_priority = trim_quotes(priority);
        let parsed_status = match TaskStatus::parse(cleaned_status) {
            None => {
                return Err(
                    CommandError::InvalidArgument {
                        field: Field::TaskStatus,
                        value: String::from_str(cleaned_status),
                    },
                );
            },
            Some(s) => s,
        };
        let parsed_priority = match Priority::parse(cleaned_priority) {
            None => {
                return Err(
                    CommandError::InvalidArgument {
                        field: Field::Priority,
                        value: String::from_str(cleaned_priority),
                    },
                );
            },
            Some(p) => p,
        };
        let before = self.tasks.get(i);
        let kept = before.duplicate();
        let updated = ProjectTask {
            title: match title {
                Some(t) => t,
                None => before.title.clone(),
            },
            description: match description {
                Some(d) => Some(d),
                None => copy_optional(&before.description),
            },
            status: parsed_status,
            priority: parsed_priority,
            updated_at: now,
            ..kept
        };
        let copy = updated.duplicate();
        self.tasks.replace(i, updated);
        Ok(copy)
    }

    /// Updates the task `id` at the current time. Quotes around `status`
    /// and `priority` are dropped before they are read. The checks come in
    /// this order, and each failure changes nothing: a task must carry
    /// `id`; the status must be one of its five tokens; the priority must
    /// be one of its four tokens. Then status and priority are replaced, a
    /// supplied title or description replaces the old one, and all else
    /// stays.
    pub fn update_project_task(
        &mut self,
        id: String,
        title: Option<String>,
        description: Option<String>,
        status: String,
        priority: String,
    ) -> (r: Result<ProjectTask, CommandError>)
        ensures
            old(self)@.well_formed() ==> final(self)@.well_formed(),
            r is Err ==> final(self)@ == old(self)@,
            match r {
                Ok(t) => {
                    let i = index_of::<ProjectTask>(old(self)@.tasks, id@);
                    &&& moment_text(t@.updated_at) is Some
                    &&& has_key::<ProjectTask>(old(self)@.tasks, id@)
                    &&& TaskStatus::of_text(strip_quotes(status@)) == Some(t@.status)
                    &&& Priority::of_text(strip_quotes(priority@)) == Some(t@.priority)
                    &&& t@ == merged_task(
                        old(self)@.tasks[i],
                        optional_text(title),
                        optional_text(description),
                        t@.status,
                        t@.priority,
                        t@.updated_at,
                    )
                    &&& final(self)@ == old(self)@.with_tasks(old(self)@.tasks.update(i, t@))
                },
                Err(e) => {
                    if !has_key::<ProjectTask>(old(self)@.tasks, id@) {
                        e.is_not_found(Entity::ProjectTask, id@)
                    } else if TaskStatus::of_text(strip_quotes(status@)) is None {
                        e.is_invalid_argument(Field::TaskStatus, strip_quotes(status@))
                    } else {
                        &&& Priority::of_text(strip_quotes(priority@)) is None
                        &&& e.is_invalid_argument(Field::Priority, strip_quotes(priority@))
                    }
                },
            },
    {
        let now = get_current_timestamp();
        self.merge_project_task(
            id.as_str(),
            title,
            description,
            status.as_str(),
            priority.as_str(),
            now,
        )
    }

    /// Removes the task `id` and confirms it by title. Fails, and changes
    /// nothing, exactly when no task carries `id`.
    pub fn delete_project_task(&mut self, id: String) -> (r: Result<String, CommandError>)
        ensures
            old(self)@.well_formed() ==> final(self)@.well_formed(),
            match r {
                Ok(text) => {
                    let i = index_of::<ProjectTask>(old(self)@.tasks, id@);
                    &&& has_key::<ProjectTask>(old(self)@.tasks, id@)
                    &&& text@ == deleted_text(Entity::ProjectTask, old(self)@.tasks[i].title, id@)
                    &&& final(self)@ == old(self)@.with_tasks(old(self)@.tasks.remove(i))
                    &&& !has_key::<ProjectTask>(final(self)@.tasks, id@)
                },
                Err(e) => {
                    &&& !has_key::<ProjectTask>(old(self)@.tasks, id@)
                    &&& e.is_not_found(Entity::ProjectTask, id@)
                    &&& final(self)@ == old(self)@
                },
            },
    {
        match self.tasks.find(id.as_str()) {
            None => Err(CommandError::NotFound { entity: Entity::ProjectTask, id }),
            Some(i) => {
                proof {
                    index_of_is_the_place::<ProjectTask>(self.tasks@, i as int);
                }
                let removed = self.tasks.remove(i);
                Ok(deleted_message(Entity::ProjectTask, removed.title.as_str(), id.as_str()))
            },
        }
    }
}

} // verus!
