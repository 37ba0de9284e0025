//! The append-only journal of recorded events, and the effector that captures
//! thread snapshots into it and turns them back into thread restorations.
use vstd::prelude::*;

verus! {

/// The identifier of a guest thread.
pub type WasiThreadId = u32;

/// How a thread came to run.
#[derive(Debug, Clone, Copy, PartialEq, Eq, Structural)]
pub enum ThreadStartType {
    /// The guest's main thread, which has its own restoration procedure.
    MainThread,
    /// A thread spawned at the guest address `start_ptr`.
    ThreadSpawn { start_ptr: u64 },
}

/// Where a thread's stack lies in guest memory.
#[derive(Debug, Clone, Copy, PartialEq, Eq, Structural)]
pub struct WasiMemoryLayout {
    pub stack_upper: u64,
    pub stack_lower: u64,
    pub guard_size: u64,
    pub stack_size: u64,
}

/// One recorded event.
#[derive(Debug, Clone)]
pub enum JournalEntry {
    /// A snapshot of one thread's execution context.
    SetThreadV1 {
        id: WasiThreadId,
        call_stack: Vec<u8>,
        memory_stack: Vec<u8>,
        store_data: Vec<u8>,
        start: ThreadStartType,
        layout: WasiMemoryLayout,
        is_64bit: bool,
    },
}

/// An ordered log of entries; entries are only ever added at the end, and
/// the order of insertion is the order of replay.
#[derive(Debug, Clone)]
pub struct Journal {
    entries: Vec<JournalEntry>,
}

impl View for Journal {
    type V = Seq<JournalEntry>;

    closed spec fn view(&self) -> Seq<JournalEntry> {
        self.entries@
    }
}

/// The journal `j` after appending each of `es` in turn.
pub open spec fn append_each(j: Seq<JournalEntry>, es: Seq<JournalEntry>) -> Seq<JournalEntry>
    decreases es.len(),
{
    if es.len() == 0 {
        j
    } else {
        append_each(j.push(es[0]), es.drop_first())
    }
}

impl Journal {
    pub fn new() -> (r: Journal)
        ensures
            r@ == Seq::<JournalEntry>::empty(),
    {
        Journal { entries: Vec::new() }
    }

    /// Adds `entry` after every entry already recorded.
    pub fn append(&mut self, entry: JournalEntry)
        ensures
            final(self)@ == old(self)@.push(entry),
    {
        self.entries.push(entry);
    }

    pub fn len(&self) -> (r: usize)
        ensures
            r == self@.len(),
    {
        self.entries.len()
    }

    /// The entry recorded in position `i`, counting from the first.
    pub fn get(&self, i: usize) -> (r: &JournalEntry)
        requires
            i < self@.len(),
        ensures
            *r == self@[i as int],
    {
        &self.entries[i]
    }

    /// All entries, in the order they were appended.
    pub fn entries(&self) -> (r: &Vec<JournalEntry>)
        ensures
            r@ == self@,
    {
        &self.entries
    }
}

/// Appending entries one after another leaves exactly those entries at the
/// end of the journal, in the order they were appended, after every entry
/// that was there before.
pub proof fn lemma_append_each(j: Seq<JournalEntry>, es: Seq<JournalEntry>)
    ensures
        append_each(j, es) == j + es,
        append_each(j, es).len() == j.len() + es.len(),
        forall|i: int| 0 <= i < es.len() ==> append_each(j, es)[j.len() + i] == es[i],
    decreases es.len(),
{
    if es.len() == 0 {
        assert(j + es =~= j);
    } else {
        lemma_append_each(j.push(es[0]), es.drop_first());
        assert(j.push(es[0]) + es.drop_first() =~= j + es);
    }
}

/// Why a snapshot cannot be replayed as a spawned thread.
#[derive(Debug, Clone, Copy, PartialEq, Eq, Structural)]
pub enum RestoreError {
    /// The snapshot is of the main thread, which is restored by another
    /// procedure.
    UnsupportedRestorePath,
    /// The entry point does not fit the guest's address width.
    AddressOverflow,
}

/// What the thread manager needs to create a thread that resumes at the
/// point where its snapshot was taken.
#[derive(Debug, Clone)]
pub struct ThreadRestore {
    pub id: WasiThreadId,
    /// The entry point, checked to fit the guest's address width.
    pub start_ptr: u64,
    pub memory_stack: Vec<u8>,
    pub call_stack: Vec<u8>,
    pub store_data: Vec<u8>,
    pub layout: WasiMemoryLayout,
}

/// The entry point that a spawned thread resumes from under the given
/// address width, or why there is none.
pub open spec fn restore_start(start: ThreadStartType, is_64bit: bool) -> Result<u64, RestoreError> {
    match start {
        ThreadStartType::MainThread => Err(RestoreError::UnsupportedRestorePath),
        ThreadStartType::ThreadSpawn { start_ptr } => if !is_64bit && start_ptr > u32::MAX {
            Err(RestoreError::AddressOverflow)
        } else {
            Ok(start_ptr)
        },
    }
}

/// Whether `r` is the outcome of replaying a snapshot with these contents at
/// the given address width.
pub open spec fn restores(
    r: Result<ThreadRestore, RestoreError>,
    id: WasiThreadId,
    memory_stack: Seq<u8>,
    call_stack: Seq<u8>,
    store_data: Seq<u8>,
    start: ThreadStartType,
    layout: WasiMemoryLayout,
    is_64bit: bool,
) -> bool {
    match restore_start(start, is_64bit) {
        Err(e) => r == Err::<ThreadRestore, RestoreError>(e),
        Ok(p) => match r {
            Ok(t) => {
                &&& t.id == id
                &&& t.start_ptr == p
                &&& t.memory_stack@ == memory_stack
                &&& t.call_stack@ == call_stack
                &&& t.store_data@ == store_data
                &&& t.layout == layout
            },
            Err(_) => false,
        },
    }
}

/// A main-thread snapshot never replays through the spawn path, whatever the
/// address width: it fails with `UnsupportedRestorePath` and yields no thread.
pub proof fn lemma_main_thread_not_restored(is_64bit: bool)
    ensures
        restore_start(ThreadStartType::MainThread, is_64bit) == Err::<u64, RestoreError>(
            RestoreError::UnsupportedRestorePath,
        ),
        forall|r: Result<ThreadRestore, RestoreError>, id, m, c, d, layout|
            #[trigger] restores(r, id, m, c, d, ThreadStartType::MainThread, layout, is_64bit)
                ==> r is Err,
{
}

/// A spawned thread whose entry point needs more than 32 bits fails with
/// `AddressOverflow` on a 32-bit guest, and on a 64-bit guest is restored
/// with that exact entry point and the captured contents.
pub proof fn lemma_spawn_width(
    r: Result<ThreadRestore, RestoreError>,
    id: WasiThreadId,
    memory_stack: Seq<u8>,
    call_stack: Seq<u8>,
    store_data: Seq<u8>,
    start_ptr: u64,
    layout: WasiMemoryLayout,
)
    requires
        start_ptr > u32::MAX,
    ensures
        restore_start(ThreadStartType::ThreadSpawn { start_ptr }, false) == Err::<u64, RestoreError>(
            RestoreError::AddressOverflow,
        ),
        restores(
            r,
            id,
            memory_stack,
            call_stack,
            store_data,
            ThreadStartType::ThreadSpawn { start_ptr },
            layout,
            true,
        ) ==> (r matches Ok(t) && t.start_ptr == start_ptr && t.memory_stack@ == memory_stack
            && t.call_stack@ == call_stack && t.store_data@ == store_data),
{
}

/// Captures thread snapshots into a journal and replays them.
pub struct JournalEffector;

impl JournalEffector {
    /// Records a snapshot of one thread: appends exactly one entry and
    /// touches nothing else.
    pub fn save_thread_state(
        journal: &mut Journal,
        id: WasiThreadId,
        memory_stack: Vec<u8>,
        rewind_stack: Vec<u8>,
        store_data: Vec<u8>,
        start: ThreadStartType,
        layout: WasiMemoryLayout,
        is_64bit: bool,
    )
        ensures
            final(journal)@ == old(journal)@.push(
                JournalEntry::SetThreadV1 {
                    id,
                    call_stack: rewind_stack,
                    memory_stack,
                    store_data,
                    start,
                    layout,
                    is_64bit,
                },
            ),
    {
        journal.append(
            JournalEntry::SetThreadV1 {
                id,
                call_stack: rewind_stack,
                memory_stack,
                store_data,
                start,
                layout,
                is_64bit,
            },
        );
    }

    /// Turns a snapshot back into a thread restoration for a guest of the
    /// given address width. A main-thread snapshot fails with
    /// `UnsupportedRestorePath`; an entry point that does not fit 32 bits
    /// on a 32-bit guest fails with `AddressOverflow`; otherwise the
    /// restoration carries the snapshot's contents unchanged.
    pub fn apply_thread_state(
        id: WasiThreadId,
        memory_stack: Vec<u8>,
        rewind_stack: Vec<u8>,
        store_data: Vec<u8>,
        start: ThreadStartType,
        layout: WasiMemoryLayout,
        is_64bit: bool,
    ) -> (r: Result<ThreadRestore, RestoreError>)
        ensures
            restores(r, id, memory_stack@, rewind_stack@, store_data@, start, layout, is_64bit),
    {
        let start_ptr: u64 = match start {
            ThreadStartType::MainThread => {
                return Err(RestoreError::UnsupportedRestorePath);
            },
            ThreadStartType::ThreadSpawn { start_ptr } => {
                if is_64bit {
                    start_ptr
                } else if start_ptr <= u32::MAX as u64 {
                    let narrow: u32 = start_ptr as u32;
                    narrow as u64
                } else {
                    return Err(RestoreError::AddressOverflow);
                }
            },
        };
        Ok(ThreadRestore { id, start_ptr, memory_stack, call_stack: rewind_stack, store_data, layout })
    }

    /// Replays one journal entry for a guest of the given address width.
    pub fn apply_entry(entry: &JournalEntry, is_64bit: bool) -> (r: Result<
        ThreadRestore,
        RestoreError,
    >)
        ensures
            match *entry {
                JournalEntry::SetThreadV1 {
                    id,
                    call_stack,
                    memory_stack,
                    store_data,
                    start,
                    layout,
                    ..
                } => restores(r, id, memory_stack@, call_stack@, store_data@, start, layout, is_64bit),
            },
    {
        match entry {
            JournalEntry::SetThreadV1 {
                id,
                call_stack,
                memory_stack,
                store_data,
                start,
                layout,
                ..
            } => {
                let m = memory_stack.clone();
                let c = call_stack.clone();
                let d = store_data.clone();
                assert(m@ =~= memory_stack@);
                assert(c@ =~= call_stack@);
                assert(d@ =~= store_data@);
                Self::apply_thread_state(*id, m, c, d, *start, *layout, is_64bit)
            },
        }
    }

    /// Replays every entry of the journal in order; the outcome in position
    /// `i` is that of the entry in position `i`.
    pub fn replay(journal: &Journal, is_64bit: bool) -> (r: Vec<Result<ThreadRestore, RestoreError>>)
        ensures
            r@.len() == journal@.len(),
            forall|i: int|
                0 <= i < r@.len() ==> match journal@[i] {
                    JournalEntry::SetThreadV1 {
                        id,
                        call_stack,
                        memory_stack,
                        store_data,
                        start,
                        layout,
                        ..
                    } => restores(
                        #[trigger] r@[i],
                        id,
                        memory_stack@,
                        call_stack@,
                        store_data@,
                        start,
                        layout,
                        is_64bit,
                    ),
                },
    {
        let mut out: Vec<Result<ThreadRestore, RestoreError>> = Vec::new();
        let mut i: usize = 0;
        while i < journal.len()
            invariant
                i <= journal@.len(),
                out@.len() == i,
                forall|k: int|
                    0 <= k < i ==> match journal@[k] {
                        JournalEntry::SetThreadV1 {
                            id,
                            call_stack,
                            memory_stack,
                            store_data,
                            start,
                            layout,
                            ..
                        } => restores(
                            #[trigger] out@[k],
                            id,
                            memory_stack@,
                            call_stack@,
                            store_data@,
                            start,
                            layout,
                            is_64bit,
                        ),
                    },
            decreases journal@.len() - i,
        {
            out.push(Self::apply_entry(journal.get(i), is_64bit));
            i = i + 1;
        }
        out
    }
}

} // verus!
