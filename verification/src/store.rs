//! The task store: title validation, id assignment, and the ordered
//! list of accepted tasks.

use vstd::prelude::*;

use crate::text::{
    is_space, is_space_char, is_trimmed, lemma_trim_end_is_prefix, lemma_trim_start_is_suffix,
    trim_spec, trim_start_spec,
};

verus! {

/// Why a raw task title was rejected.
#[derive(Clone, Copy, Debug, PartialEq, Eq, Structural)]
pub enum ValidationError {
    /// The raw title was the empty string.
    EmptyTitle,
    /// The raw title was non-empty but held only whitespace.
    WhitespaceOnlyTitle,
}

impl ValidationError {
    /// The message shown to the user for this error.
    pub fn message(&self) -> (r: String)
        ensures
            *self == ValidationError::EmptyTitle ==> r@ == "Task title cannot be empty"@,
            *self == ValidationError::WhitespaceOnlyTitle ==> r@
                == "Task title cannot contain only whitespace"@,
    {
        match self {
            ValidationError::EmptyTitle => "Task title cannot be empty".to_owned(),
            ValidationError::WhitespaceOnlyTitle => "Task title cannot contain only whitespace".to_owned(),
        }
    }
}

/// What validation decides for a raw title: the empty string is
/// rejected outright, a title that trims to nothing is rejected as
/// whitespace-only, and anything else is accepted as its trimmed form.
pub open spec fn validate_spec(s: Seq<char>) -> Result<Seq<char>, ValidationError> {
    if s.len() == 0 {
        Err(ValidationError::EmptyTitle)
    } else if trim_spec(s).len() == 0 {
        Err(ValidationError::WhitespaceOnlyTitle)
    } else {
        Ok(trim_spec(s))
    }
}

/// Checks a raw title against [`validate_spec`] and returns the
/// trimmed title on success.
pub fn validate_task_title(title: &str) -> (r: Result<String, ValidationError>)
    ensures
        r is Ok <==> validate_spec(title@) is Ok,
        r is Ok ==> r->Ok_0@ == validate_spec(title@)->Ok_0 && is_trimmed(r->Ok_0@),
        r is Err ==> r->Err_0 == validate_spec(title@)->Err_0,
{
    let n = title.unicode_len();
    if n == 0 {
        return Err(ValidationError::EmptyTitle);
    }
    let mut i: usize = 0;
    while i < n && is_space(title.get_char(i))
        invariant
            n == title@.len(),
            0 <= i <= n,
            forall|k: int| 0 <= k < i ==> is_space_char(title@[k]),
        decreases n - i,
    {
        i = i + 1;
    }
    if i == n {
        proof {
            lemma_trim_start_is_suffix(title@, n as int);
            assert(trim_start_spec(title@) =~= Seq::<char>::empty());
        }
        return Err(ValidationError::WhitespaceOnlyTitle);
    }
    let mut j: usize = n;
    while j > i && is_space(title.get_char(j - 1))
        invariant
            n == title@.len(),
            0 <= i < n,
            i <= j <= n,
            !is_space_char(title@[i as int]),
            forall|k: int| j <= k < n ==> is_space_char(title@[k]),
        decreases j,
    {
        j = j - 1;
    }
    proof {
        assert(j > i) by {
            if j == i {
                assert(is_space_char(title@[i as int]));
            }
        }
        lemma_trim_start_is_suffix(title@, i as int);
        let t = title@.subrange(i as int, n as int);
        assert forall|k: int| j - i <= k < t.len() implies is_space_char(t[k]) by {
            assert(t[k] == title@[k + i]);
        }
        assert(t[j - i - 1] == title@[j - 1]);
        lemma_trim_end_is_prefix(t, j - i);
        assert(t.subrange(0, j - i) =~= title@.subrange(i as int, j as int));
    }
    let trimmed = title.substring_char(i, j);
    Ok(trimmed.to_owned())
}

/// A stored task: its id and its validated, trimmed title.
#[derive(Debug, Clone)]
pub struct Task {
    pub id: usize,
    pub title: String,
}

/// Owns the ordered list of tasks and the id counter. Ids start at 1,
/// rise by one per accepted task, and a rejected title never consumes
/// an id.
pub struct TaskManager {
    tasks: Vec<Task>,
    next_id: usize,
}

impl View for TaskManager {
    type V = Seq<(usize, Seq<char>)>;

    /// The store as the sequence of (id, title) pairs, in insertion
    /// order.
    closed spec fn view(&self) -> Seq<(usize, Seq<char>)> {
        self.tasks@.map(|k: int, t: Task| (t.id, t.title@))
    }
}

impl TaskManager {
    /// Well-formed: the k-th task carries id k + 1, every stored title
    /// is non-empty and trimmed, and the counter holds the next id.
    pub closed spec fn wf(&self) -> bool {
        &&& self.next_id == self.tasks@.len() + 1
        &&& forall|k: int|
            0 <= k < self.tasks@.len() ==> (#[trigger] self.tasks@[k]).id == k + 1
        &&& forall|k: int|
            0 <= k < self.tasks@.len() ==> is_trimmed((#[trigger] self.tasks@[k]).title@)
    }

    /// The id the next accepted task will receive.
    pub closed spec fn spec_next_id(&self) -> usize {
        self.next_id
    }

    /// An empty store whose first task will receive id 1.
    pub fn new() -> (m: TaskManager)
        ensures
            m.wf(),
            m@ == Seq::<(usize, Seq<char>)>::empty(),
            m.spec_next_id() == 1,
    {
        let m = TaskManager { tasks: Vec::new(), next_id: 1 };
        proof {
            assert(m@ =~= Seq::<(usize, Seq<char>)>::empty());
        }
        m
    }

    /// Validates `title`; on success appends a task holding the
    /// trimmed title under the next id and returns that id, on failure
    /// returns the error and leaves the store untouched.
    pub fn add_task(&mut self, title: String) -> (r: Result<usize, ValidationError>)
        requires
            old(self).wf(),
            old(self)@.len() + 2 <= usize::MAX,
        ensures
            final(self).wf(),
            validate_spec(title@) is Ok ==> {
                &&& r == Ok::<usize, ValidationError>((old(self)@.len() + 1) as usize)
                &&& final(self)@ == old(self)@.push(
                    ((old(self)@.len() + 1) as usize, validate_spec(title@)->Ok_0),
                )
                &&& final(self).spec_next_id() == old(self).spec_next_id() + 1
            },
            validate_spec(title@) is Err ==> {
                &&& r == Err::<usize, ValidationError>(validate_spec(title@)->Err_0)
                &&& *final(self) == *old(self)
                &&& final(self).spec_next_id() == old(self).spec_next_id()
            },
    {
        let validated_title = match validate_task_title(title.as_str()) {
            Ok(t) => t,
            Err(e) => {
                return Err(e);
            },
        };
        let task = Task { id: self.next_id, title: validated_title };
        let id = task.id;
        self.tasks.push(task);
        self.next_id = self.next_id + 1;
        proof {
            assert(self@ =~~= old(self)@.push(
                ((old(self)@.len() + 1) as usize, validate_spec(title@)->Ok_0),
            ));
        }
        Ok(id)
    }

    /// The stored tasks, in insertion order.
    pub fn list_tasks(&self) -> (r: &[Task])
        ensures
            r@.len() == self@.len(),
            forall|k: int|
                0 <= k < r@.len() ==> (#[trigger] r@[k]).id == self@[k].0 && r@[k].title@
                    == self@[k].1,
    {
        self.tasks.as_slice()
    }
}

/// Ids are assigned in call order: in any well-formed store the k-th
/// task carries id k + 1, and its stored title is non-empty and
/// trimmed.
pub proof fn lemma_store_shape(m: &TaskManager)
    requires
        m.wf(),
    ensures
        forall|k: int| 0 <= k < m@.len() ==> (#[trigger] m@[k]).0 == k + 1,
        forall|k: int| 0 <= k < m@.len() ==> is_trimmed((#[trigger] m@[k]).1),
{
}

} // verus!
