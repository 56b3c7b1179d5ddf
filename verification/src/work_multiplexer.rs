//! Pieces of a work multiplexer that distributes rendering work uniformly over a number of
//! worker threads: how many threads to use, how they are named, how a worker learns that it
//! should stop, and which columns of an image each worker renders.
use std::sync::mpsc::{Receiver, TryRecvError};
use vstd::prelude::*;
use vstd::string::StringExecFns;

verus! {

broadcast use vstd::seq_lib::group_seq_properties;

#[verifier::external_type_specification]
#[verifier::external_body]
#[verifier::reject_recursive_types(T)]
pub struct ExReceiver<T>(Receiver<T>);

/// What a non-blocking receive on a worker's control channel saw.
#[derive(Copy, Clone, Debug, PartialEq, Eq)]
pub enum ChannelState {
    /// A message was waiting.
    Message,
    /// No message was waiting, and the sending side is still there.
    Empty,
    /// The sending side is gone.
    Disconnected,
}

/// Calls `Receiver::try_recv` once and reports which of its three outcomes happened. What comes
/// back depends on other threads, so nothing is stated of it.
#[verifier::external_body]
fn try_receive(receiver: &Receiver<()>) -> ChannelState {
    match receiver.try_recv() {
        Ok(()) => ChannelState::Message,
        Err(TryRecvError::Empty) => ChannelState::Empty,
        Err(TryRecvError::Disconnected) => ChannelState::Disconnected,
    }
}

/// Calls `num_cpus::get`: the number of logical CPUs the current process may use. Its
/// documentation promises at least 1; the exact number depends on the machine, so nothing more
/// is stated.
#[verifier::external_body]
fn available_cpus() -> (r: usize)
    ensures
        r >= 1,
{
    num_cpus::get()
}

/// Whether a worker that saw `state` on its control channel should stop: it stops once the
/// controlling side has hung up.
pub fn stop_requested(state: ChannelState) -> (r: bool)
    ensures
        r == (state == ChannelState::Disconnected),
{
    match state {
        ChannelState::Disconnected => true,
        _ => false,
    }
}

/// Handed to each worker thread so that it can find out whether it should stop early.
pub struct ThreadNotifier {
    receiver: Receiver<()>,
}

impl ThreadNotifier {
    /// The receiving end of the worker's control channel.
    pub closed spec fn spec_receiver(&self) -> Receiver<()> {
        self.receiver
    }

    /// Wraps the receiving end of the worker's control channel.
    pub fn new(receiver: Receiver<()>) -> (r: ThreadNotifier)
        ensures
            r.spec_receiver() == receiver,
    {
        ThreadNotifier { receiver }
    }

    /// If true, then the thread should break out of its processing loop: the controlling side
    /// dropped its end of the channel. The answer depends on the controlling thread, which may
    /// hang up at any moment.
    pub fn should_i_stop(&self) -> bool {
        stop_requested(try_receive(&self.receiver))
    }
}

/// Configures how work is split over worker threads.
pub struct ThreadedWorkMultiplexerBuilder {
    /// The number of worker threads.
    pub thread_count: usize,
    thread_base_name: String,
}

impl ThreadedWorkMultiplexerBuilder {
    /// The number of worker threads.
    pub closed spec fn spec_thread_count(&self) -> usize {
        self.thread_count
    }

    /// The name that the worker threads' names start with.
    pub closed spec fn spec_base_name(&self) -> Seq<char> {
        self.thread_base_name@
    }

    /// Construct a new ThreadedWorkMultiplexerBuilder.
    ///
    /// It will set the thead_count to the number of CPUs/cores on the system, and it sets the
    /// base name for the threads to "worker thread".
    pub fn new() -> (r: ThreadedWorkMultiplexerBuilder)
        ensures
            r.spec_thread_count() >= 1,
            r.spec_base_name() == "worker thread"@,
    {
        ThreadedWorkMultiplexerBuilder {
            thread_count: available_cpus(),
            thread_base_name: String::from_str("worker thread"),
        }
    }

    /// Set/update the `thread_base_name` to a new value.
    pub fn base_name(self, name: &str) -> (r: ThreadedWorkMultiplexerBuilder)
        ensures
            r.spec_thread_count() == self.spec_thread_count(),
            r.spec_base_name() == name@,
    {
        let mut builder = self;
        builder.thread_base_name = String::from_str(name);
        builder
    }

    /// The number of worker threads.
    pub fn thread_count(&self) -> (r: usize)
        ensures
            r == self.spec_thread_count(),
    {
        self.thread_count
    }

    /// The name that the worker threads' names start with.
    pub fn thread_base_name(&self) -> (r: &str)
        ensures
            r@ == self.spec_base_name(),
    {
        self.thread_base_name.as_str()
    }
}

impl Default for ThreadedWorkMultiplexerBuilder {
    /// Just calls `ThreadedWorkMultiplexerBuilder::new()`.
    fn default() -> (r: ThreadedWorkMultiplexerBuilder)
        ensures
            r.spec_thread_count() >= 1,
            r.spec_base_name() == "worker thread"@,
    {
        ThreadedWorkMultiplexerBuilder::new()
    }
}

/// Whether column `x` belongs to the worker `thread_id` of `total_threads`: the workers take the
/// columns in turn, so that each renders every `total_threads`-th column.
pub open spec fn in_shard(x: int, thread_id: int, total_threads: int) -> bool {
    (x + thread_id) % total_threads == 0
}

/// The columns among `0..width` that the worker `thread_id` of `total_threads` renders, in
/// increasing order.
pub fn columns_for_thread(thread_id: usize, total_threads: usize, width: u32) -> (r: Vec<u32>)
    requires
        total_threads > 0,
        thread_id + width <= usize::MAX,
    ensures
        forall|x: u32| r@.contains(x) <==> (x < width && in_shard(x as int, thread_id as int, total_threads as int)),
        forall|i: int, j: int| 0 <= i < j < r@.len() ==> r@[i] < r@[j],
{
    let mut columns: Vec<u32> = Vec::new();
    let mut x: u32 = 0;
    while x < width
        invariant
            x <= width,
            total_threads > 0,
            thread_id + width <= usize::MAX,
            forall|c: u32| columns@.contains(c) <==> (c < x && in_shard(c as int, thread_id as int, total_threads as int)),
            forall|i: int, j: int| 0 <= i < j < columns@.len() ==> columns@[i] < columns@[j],
            forall|i: int| 0 <= i < columns@.len() ==> columns@[i] < x,
        decreases width - x,
    {
        if ((x as usize) + thread_id) % total_threads == 0 {
            columns.push(x);
        }
        x = x + 1;
    }
    columns
}

/// The workers of `total_threads` split the columns without gaps or overlaps: every column
/// belongs to exactly one of them.
pub proof fn lemma_each_column_in_one_shard(x: nat, total_threads: nat)
    requires
        total_threads > 0,
    ensures
        exists|t: nat| t < total_threads && in_shard(x as int, t as int, total_threads as int),
        forall|t1: nat, t2: nat|
            t1 < total_threads && t2 < total_threads && in_shard(x as int, t1 as int, total_threads as int)
                && in_shard(x as int, t2 as int, total_threads as int) ==> t1 == t2,
{
    let n = total_threads as int;
    let t: nat = ((n - (x as int) % n) % n) as nat;
    assert(in_shard(x as int, t as int, n)) by (nonlinear_arith)
        requires
            n > 0,
            t == (n - (x as int) % n) % n,
            x >= 0,
    {
        vstd::arithmetic::div_mod::lemma_fundamental_div_mod(x as int, n);
    }
    assert forall|t1: nat, t2: nat|
        t1 < total_threads && t2 < total_threads && in_shard(x as int, t1 as int, n) && in_shard(
            x as int,
            t2 as int,
            n,
        ) implies t1 == t2 by {
        vstd::arithmetic::div_mod::lemma_mod_equivalence((x + t1) as int, (x + t2) as int, n);
        vstd::arithmetic::div_mod::lemma_mod_equivalence((x + t2) as int, (x + t1) as int, n);
        if t1 >= t2 {
            vstd::arithmetic::div_mod::lemma_small_mod((t1 - t2) as nat, total_threads);
        } else {
            vstd::arithmetic::div_mod::lemma_small_mod((t2 - t1) as nat, total_threads);
        }
    }
}

/// Where the workers' columns lie: column 0 is worker 0's, column `total_threads - t` is worker
/// `t`'s, and each worker's columns repeat every `total_threads` columns.
pub proof fn lemma_shard_positions(x: nat, t: nat, total_threads: nat)
    requires
        total_threads > 0,
        t < total_threads,
    ensures
        in_shard(0, 0, total_threads as int),
        t > 0 ==> in_shard(total_threads - t, t as int, total_threads as int),
        in_shard(x as int, t as int, total_threads as int) <==> in_shard(
            (x + total_threads) as int,
            t as int,
            total_threads as int,
        ),
{
    let n = total_threads as int;
    vstd::arithmetic::div_mod::lemma_mod_self_0(n);
    vstd::arithmetic::div_mod::lemma_small_mod(0, total_threads);
    vstd::arithmetic::div_mod::lemma_mod_add_multiples_vanish((x + t) as int, n);
    assert((x + total_threads + t) as int == (x + t) as int + n);
}

} // verus!
