use vstd::prelude::*;
use crate::buffer::Buffer;
use crate::device::{all_non_null, wrap_devices, Device};
use crate::error::Error;
use crate::event::{Event, EventModel};

verus! {

/// The handles that a matrix of vectors holds, row by row.
pub open spec fn matrix_view(m: Seq<Vec<usize>>) -> Seq<Seq<usize>> {
    Seq::new(m.len(), |i: int| m[i]@)
}

/// The handles of a row of buffers, in order.
pub open spec fn handles_of(buffers: Seq<Buffer>) -> Seq<usize> {
    Seq::new(buffers.len(), |i: int| buffers[i].handle())
}

/// Argument lists can be executed when there is at least one device and every
/// device gets the same number of arguments.
pub open spec fn rectangular(lists: Seq<Seq<usize>>) -> bool {
    lists.len() > 0 && forall|i: int|
        0 <= i < lists.len() ==> (#[trigger] lists[i]).len() == lists[0].len()
}

/// `device` is the first device whose argument count differs from that of device 0.
pub open spec fn is_first_mismatch(lists: Seq<Seq<usize>>, device: int) -> bool {
    &&& 0 < device < lists.len()
    &&& lists[device].len() != lists[0].len()
    &&& forall|j: int| 0 <= j < device ==> (#[trigger] lists[j]).len() == lists[0].len()
}

/// What validating argument lists must return: the lists themselves when they
/// are rectangular, and otherwise the error that names what is wrong with them.
pub open spec fn validated(lists: Seq<Seq<usize>>, r: Result<Vec<Vec<usize>>, Error>) -> bool {
    match r {
        Ok(m) => rectangular(lists) && matrix_view(m@) == lists,
        Err(Error::NoDevices) => lists.len() == 0,
        Err(Error::ArgumentCountMismatch { device, expected, found }) => {
            &&& is_first_mismatch(lists, device as int)
            &&& expected == lists[0].len()
            &&& found == lists[device as int].len()
        },
        Err(_) => false,
    }
}

/// The handles of a row of buffers.
pub fn row_handles(buffers: &[Buffer]) -> (row: Vec<usize>)
    ensures
        row@ == handles_of(buffers@),
{
    let mut row: Vec<usize> = Vec::with_capacity(buffers.len());
    let mut i: usize = 0;
    while i < buffers.len()
        invariant
            i <= buffers.len(),
            row.len() == i,
            forall|j: int| 0 <= j < i ==> row@[j] == buffers@[j].handle(),
        decreases buffers.len() - i,
    {
        row.push(buffers[i].ptr());
        i += 1;
    }
    assert(row@ =~= handles_of(buffers@));
    row
}

/// Checks that a matrix of handles is rectangular and hands it on unchanged, or
/// reports the first device whose argument count differs from that of device 0.
pub fn check_rectangular(lists: Vec<Vec<usize>>) -> (r: Result<Vec<Vec<usize>>, Error>)
    ensures
        validated(matrix_view(lists@), r),
        r matches Ok(m) ==> m == lists,
{
    if lists.len() == 0 {
        return Err(Error::NoDevices);
    }
    let expected: usize = lists[0].len();
    let mut i: usize = 1;
    while i < lists.len()
        invariant
            1 <= i <= lists.len(),
            expected == lists@[0].len(),
            forall|j: int| 0 <= j < i ==> (#[trigger] lists@[j]).len() == expected,
        decreases lists.len() - i,
    {
        let found: usize = lists[i].len();
        if found != expected {
            return Err(Error::ArgumentCountMismatch { device: i, expected, found });
        }
        i += 1;
    }
    Ok(lists)
}

/// A set of input buffers for one execution, for one device or for several.
pub trait ExecuteInputs {
    /// The buffer handles, one list per device, as the caller supplied them.
    spec fn argument_lists(&self) -> Seq<Seq<usize>>;

    /// The matrix of buffer handles to execute on: one row per device, one
    /// column per argument. Fails when the rows differ in length or there is none.
    fn buffer_ptrs(&self) -> (r: Result<Vec<Vec<usize>>, Error>)
        ensures
            validated(self.argument_lists(), r),
    ;
}

impl ExecuteInputs for () {
    open spec fn argument_lists(&self) -> Seq<Seq<usize>> {
        seq![Seq::<usize>::empty()]
    }

    fn buffer_ptrs(&self) -> (r: Result<Vec<Vec<usize>>, Error>) {
        let row: Vec<usize> = Vec::new();
        let mut lists: Vec<Vec<usize>> = Vec::new();
        lists.push(row);
        assert(matrix_view(lists@) =~= self.argument_lists());
        Ok(lists)
    }
}

impl ExecuteInputs for Buffer {
    open spec fn argument_lists(&self) -> Seq<Seq<usize>> {
        seq![seq![self.handle()]]
    }

    fn buffer_ptrs(&self) -> (r: Result<Vec<Vec<usize>>, Error>) {
        let mut row: Vec<usize> = Vec::new();
        row.push(self.ptr());
        let mut lists: Vec<Vec<usize>> = Vec::new();
        lists.push(row);
        assert(lists@[0]@ =~= seq![self.handle()]);
        assert(matrix_view(lists@) =~= self.argument_lists());
        Ok(lists)
    }
}

impl<const A: usize> ExecuteInputs for [Buffer; A] {
    open spec fn argument_lists(&self) -> Seq<Seq<usize>> {
        seq![handles_of(self@)]
    }

    fn buffer_ptrs(&self) -> (r: Result<Vec<Vec<usize>>, Error>) {
        let row = row_handles(self.as_slice());
        let mut lists: Vec<Vec<usize>> = Vec::new();
        lists.push(row);
        assert(matrix_view(lists@) =~= self.argument_lists());
        Ok(lists)
    }
}

impl ExecuteInputs for Vec<Buffer> {
    open spec fn argument_lists(&self) -> Seq<Seq<usize>> {
        seq![handles_of(self@)]
    }

    fn buffer_ptrs(&self) -> (r: Result<Vec<Vec<usize>>, Error>) {
        let row = row_handles(self.as_slice());
        let mut lists: Vec<Vec<usize>> = Vec::new();
        lists.push(row);
        assert(matrix_view(lists@) =~= self.argument_lists());
        Ok(lists)
    }
}

impl<const D: usize, const A: usize> ExecuteInputs for [[Buffer; A]; D] {
    open spec fn argument_lists(&self) -> Seq<Seq<usize>> {
        Seq::new(D as nat, |d: int| handles_of(self@[d]@))
    }

    fn buffer_ptrs(&self) -> (r: Result<Vec<Vec<usize>>, Error>) {
        let mut lists: Vec<Vec<usize>> = Vec::with_capacity(D);
        let mut d: usize = 0;
        while d < D
            invariant
                d <= D,
                lists.len() == d,
                forall|j: int| 0 <= j < d ==> (#[trigger] lists@[j])@ == handles_of(self@[j]@),
            decreases D - d,
        {
            lists.push(row_handles(self[d].as_slice()));
            d += 1;
        }
        assert(matrix_view(lists@) =~= self.argument_lists());
        check_rectangular(lists)
    }
}

impl ExecuteInputs for Vec<Vec<Buffer>> {
    open spec fn argument_lists(&self) -> Seq<Seq<usize>> {
        Seq::new(self@.len(), |d: int| handles_of(self@[d]@))
    }

    fn buffer_ptrs(&self) -> (r: Result<Vec<Vec<usize>>, Error>) {
        let mut lists: Vec<Vec<usize>> = Vec::with_capacity(self.len());
        let mut d: usize = 0;
        while d < self.len()
            invariant
                d <= self.len(),
                lists.len() == d,
                forall|j: int| 0 <= j < d ==> (#[trigger] lists@[j])@ == handles_of(self@[j]@),
            decreases self.len() - d,
        {
            lists.push(row_handles(self[d].as_slice()));
            d += 1;
        }
        assert(matrix_view(lists@) =~= self.argument_lists());
        check_rectangular(lists)
    }
}

/// The options of one execution. Only the defaults are offered: no callbacks
/// for send and receive operations, no launch id, and no input kept from donation.
#[derive(Debug, Clone, PartialEq, Eq)]
pub struct ExecuteOptions {
    pub num_send_ops: usize,
    pub num_recv_ops: usize,
    pub launch_id: i32,
    pub non_donatable_input_indices: Vec<i64>,
}

impl ExecuteOptions {
    /// Whether these are the default options.
    pub open spec fn is_default(self) -> bool {
        &&& self.num_send_ops == 0
        &&& self.num_recv_ops == 0
        &&& self.launch_id == 0
        &&& self.non_donatable_input_indices@.len() == 0
    }

    /// The default options.
    pub fn new() -> (options: ExecuteOptions)
        ensures
            options.is_default(),
    {
        ExecuteOptions {
            num_send_ops: 0,
            num_recv_ops: 0,
            launch_id: 0,
            non_donatable_input_indices: Vec::new(),
        }
    }
}

/// Everything that the one execution call carries: the arguments, and the
/// storage that the plugin fills with output buffers and completion events.
/// A slot holds the null handle until the plugin has written it. `client` is
/// the client that the executable is bound to; what the call produces belongs
/// to it.
#[derive(Debug, Clone, PartialEq, Eq)]
pub struct ExecuteArgs {
    pub client: usize,
    pub executable: usize,
    pub options: ExecuteOptions,
    pub argument_lists: Vec<Vec<usize>>,
    pub num_devices: usize,
    pub num_args: usize,
    pub output_lists: Vec<Vec<usize>>,
    pub device_complete_events: Vec<usize>,
}

/// A matrix with `rows` rows of `cols` null handles each.
pub open spec fn null_matrix(rows: nat, cols: nat) -> Seq<Seq<usize>> {
    Seq::new(rows, |d: int| Seq::new(cols, |o: int| 0usize))
}

impl ExecuteArgs {
    /// The number of outputs per device that the storage was sized for.
    pub open spec fn num_outputs(self) -> nat {
        self.output_lists@[0]@.len()
    }

    /// The record names a client and is sized consistently: one argument row,
    /// one output row and one event slot per device, all argument rows
    /// equally long, and all output rows equally long.
    pub open spec fn wf(self) -> bool {
        &&& self.client != 0
        &&& self.num_devices > 0
        &&& self.argument_lists@.len() == self.num_devices
        &&& self.output_lists@.len() == self.num_devices
        &&& self.device_complete_events@.len() == self.num_devices
        &&& forall|d: int|
            0 <= d < self.num_devices ==> (#[trigger] self.argument_lists@[d])@.len()
                == self.num_args
        &&& forall|d: int|
            0 <= d < self.num_devices ==> (#[trigger] self.output_lists@[d])@.len()
                == self.num_outputs()
    }

    /// Every slot that the plugin was to fill holds a handle that is not null.
    pub open spec fn filled(self) -> bool {
        &&& forall|d: int|
            0 <= d < self.device_complete_events@.len()
                ==> self.device_complete_events@[d] != 0
        &&& forall|d: int, o: int|
            0 <= d < self.output_lists@.len() && 0 <= o < self.output_lists@[d]@.len()
                ==> self.output_lists@[d]@[o] != 0
    }

    /// Tests whether the record names a client and is sized consistently.
    pub fn is_well_formed(&self) -> (b: bool)
        ensures
            b == self.wf(),
    {
        if self.client == 0 || self.num_devices == 0 {
            return false;
        }
        if self.argument_lists.len() != self.num_devices || self.output_lists.len()
            != self.num_devices || self.device_complete_events.len() != self.num_devices {
            return false;
        }
        let num_outputs: usize = self.output_lists[0].len();
        let mut d: usize = 0;
        while d < self.num_devices
            invariant
                d <= self.num_devices,
                self.argument_lists@.len() == self.num_devices,
                self.output_lists@.len() == self.num_devices,
                num_outputs == self.num_outputs(),
                forall|j: int|
                    0 <= j < d ==> (#[trigger] self.argument_lists@[j])@.len() == self.num_args,
                forall|j: int|
                    0 <= j < d ==> (#[trigger] self.output_lists@[j])@.len() == num_outputs,
            decreases self.num_devices - d,
        {
            if self.argument_lists[d].len() != self.num_args || self.output_lists[d].len()
                != num_outputs {
                return false;
            }
            d += 1;
        }
        true
    }

    /// Tests whether every slot holds a handle that is not null.
    pub fn is_filled(&self) -> (b: bool)
        ensures
            b == self.filled(),
    {
        let mut d: usize = 0;
        while d < self.device_complete_events.len()
            invariant
                d <= self.device_complete_events@.len(),
                forall|j: int| 0 <= j < d ==> self.device_complete_events@[j] != 0,
            decreases self.device_complete_events.len() - d,
        {
            if self.device_complete_events[d] == 0 {
                return false;
            }
            d += 1;
        }
        let mut d: usize = 0;
        while d < self.output_lists.len()
            invariant
                d <= self.output_lists@.len(),
                forall|j: int| 0 <= j < self.device_complete_events@.len()
                    ==> self.device_complete_events@[j] != 0,
                forall|j: int, o: int|
                    0 <= j < d && 0 <= o < self.output_lists@[j]@.len()
                        ==> self.output_lists@[j]@[o] != 0,
            decreases self.output_lists.len() - d,
        {
            let row = &self.output_lists[d];
            let mut o: usize = 0;
            while o < row.len()
                invariant
                    o <= row@.len(),
                    d < self.output_lists@.len(),
                    row == &self.output_lists@[d as int],
                    forall|k: int| 0 <= k < o ==> row@[k] != 0,
                decreases row.len() - o,
            {
                if row[o] == 0 {
                    return false;
                }
                o += 1;
            }
            d += 1;
        }
        true
    }

    /// Turns the outcome of the execution call into owned events and buffers.
    /// A failed call yields its error and nothing else: the storage is not
    /// read. After a successful call there is one event per device and one
    /// row of output buffers per device, each owning the handle in its slot,
    /// and every buffer belongs to the client of the record.
    pub fn finish(self, status: Result<(), Error>) -> (r: Result<
        (Vec<Event>, Vec<Vec<Buffer>>),
        Error,
    >)
        requires
            status.is_ok() ==> self.wf() && self.filled(),
        ensures
            match status {
                Err(e) => r == Err::<(Vec<Event>, Vec<Vec<Buffer>>), Error>(e),
                Ok(_) => r.is_ok() && ({
                    let (events, outputs) = r.unwrap();
                    &&& events@.len() == self.num_devices
                    &&& outputs@.len() == self.num_devices
                    &&& forall|d: int|
                        0 <= d < self.num_devices ==> (#[trigger] events@[d])@
                            == (EventModel {
                            handle: self.device_complete_events@[d],
                            consumed: false,
                        })
                    &&& forall|d: int|
                        0 <= d < self.num_devices ==> handles_of((#[trigger] outputs@[d])@)
                            == self.output_lists@[d]@
                    &&& forall|d: int, o: int|
                        0 <= d < outputs@.len() && 0 <= o < outputs@[d]@.len()
                            ==> (#[trigger] outputs@[d]@[o]).owner() == self.client
                }),
            },
    {
        match status {
            Err(e) => Err(e),
            Ok(_) => {
                let mut events: Vec<Event> = Vec::with_capacity(self.num_devices);
                let mut outputs: Vec<Vec<Buffer>> = Vec::with_capacity(self.num_devices);
                let mut d: usize = 0;
                while d < self.num_devices
                    invariant
                        d <= self.num_devices,
                        self.wf(),
                        self.filled(),
                        events@.len() == d,
                        outputs@.len() == d,
                        forall|j: int|
                            0 <= j < d ==> (#[trigger] events@[j])@ == (EventModel {
                                handle: self.device_complete_events@[j],
                                consumed: false,
                            }),
                        forall|j: int|
                            0 <= j < d ==> handles_of((#[trigger] outputs@[j])@)
                                == self.output_lists@[j]@,
                        forall|j: int, o: int|
                            0 <= j < d && 0 <= o < outputs@[j]@.len()
                                ==> (#[trigger] outputs@[j]@[o]).owner() == self.client,
                    decreases self.num_devices - d,
                {
                    events.push(Event::wrap(self.device_complete_events[d]));
                    outputs.push(wrap_row(self.client, &self.output_lists[d]));
                    d += 1;
                }
                Ok((events, outputs))
            },
        }
    }
}

/// Wraps every handle of a row into an owned buffer of the client, in order.
fn wrap_row(client: usize, row: &Vec<usize>) -> (buffers: Vec<Buffer>)
    requires
        client != 0,
        forall|o: int| 0 <= o < row@.len() ==> row@[o] != 0,
    ensures
        handles_of(buffers@) == row@,
        forall|o: int| 0 <= o < buffers@.len() ==> (#[trigger] buffers@[o]).owner() == client,
{
    let mut buffers: Vec<Buffer> = Vec::with_capacity(row.len());
    let mut o: usize = 0;
    while o < row.len()
        invariant
            o <= row@.len(),
            client != 0,
            forall|k: int| 0 <= k < row@.len() ==> row@[k] != 0,
            buffers@.len() == o,
            forall|k: int|
                0 <= k < o ==> (#[trigger] buffers@[k]).handle() == row@[k] && buffers@[k].owner()
                    == client,
        decreases row.len() - o,
    {
        buffers.push(Buffer::wrap(client, row[o]));
        o += 1;
    }
    assert(handles_of(buffers@) =~= row@);
    buffers
}

/// A fresh row of `n` null handles.
fn null_row(n: usize) -> (row: Vec<usize>)
    ensures
        row@ == Seq::new(n as nat, |o: int| 0usize),
{
    let mut row: Vec<usize> = Vec::with_capacity(n);
    let mut o: usize = 0;
    while o < n
        invariant
            o <= n,
            row@.len() == o,
            forall|k: int| 0 <= k < o ==> row@[k] == 0,
        decreases n - o,
    {
        row.push(0);
        o += 1;
    }
    assert(row@ =~= Seq::new(n as nat, |o: int| 0usize));
    row
}

/// A compiled program that is bound to devices and ready to run, known by its
/// handle and by the handle of the client that it is bound to. Neither handle
/// is null.
#[derive(Debug)]
pub struct LoadedExecutable {
    client: usize,
    ptr: usize,
}

impl LoadedExecutable {
    #[verifier::type_invariant]
    spec fn non_null(self) -> bool {
        self.ptr != 0 && self.client != 0
    }

    /// The handle that this executable owns.
    pub closed spec fn handle(self) -> usize {
        self.ptr
    }

    /// The handle of the client that this executable is bound to.
    pub closed spec fn owner(self) -> usize {
        self.client
    }

    /// Takes ownership of a handle that the plugin returned to a client.
    pub fn wrap(client: usize, ptr: usize) -> (executable: LoadedExecutable)
        requires
            client != 0,
            ptr != 0,
        ensures
            executable.handle() == ptr,
            executable.owner() == client,
    {
        LoadedExecutable { client, ptr }
    }

    /// The handle of the client that this executable is bound to.
    pub fn client(&self) -> (c: usize)
        ensures
            c == self.owner(),
            c != 0,
    {
        proof {
            use_type_invariant(self);
        }
        self.client
    }

    /// The devices that this executable runs on, from the handles that the
    /// plugin reported: one device of this executable's client per handle,
    /// in order.
    pub fn addressable_devices(&self, handles: &Vec<usize>) -> (devices: Vec<Device>)
        requires
            all_non_null(handles@),
        ensures
            devices.len() == handles.len(),
            forall|i: int|
                0 <= i < handles.len() ==> (#[trigger] devices@[i]).handle() == handles@[i]
                    && devices@[i].owner() == self.owner(),
    {
        wrap_devices(self.client(), handles)
    }

    /// The handle, to pass back to the plugin.
    pub fn ptr(&self) -> (p: usize)
        ensures
            p == self.handle(),
            p != 0,
    {
        proof {
            use_type_invariant(self);
        }
        self.ptr
    }

    /// Prepares the one execution call for a matrix of buffer handles, one
    /// row per device, and the number of outputs that the program produces
    /// per device. A matrix whose rows differ in length, or without rows, is
    /// refused. Otherwise the record carries the matrix as supplied, default
    /// options, and null-filled storage for one row of outputs and one
    /// completion event per device.
    pub fn prepare_execute(&self, argument_lists: Vec<Vec<usize>>, num_outputs: usize) -> (r:
        Result<ExecuteArgs, Error>)
        ensures
            r.is_ok() <==> rectangular(matrix_view(argument_lists@)),
            match r {
                Ok(args) => {
                    &&& args.wf()
                    &&& args.client == self.owner()
                    &&& args.executable == self.handle()
                    &&& args.options.is_default()
                    &&& args.argument_lists == argument_lists
                    &&& args.num_devices == argument_lists@.len()
                    &&& args.num_args == argument_lists@[0]@.len()
                    &&& matrix_view(args.output_lists@) == null_matrix(
                        args.num_devices as nat,
                        num_outputs as nat,
                    )
                    &&& args.device_complete_events@ == Seq::new(
                        args.num_devices as nat,
                        |d: int| 0usize,
                    )
                },
                Err(e) => validated(
                    matrix_view(argument_lists@),
                    Err::<Vec<Vec<usize>>, Error>(e),
                ),
            },
    {
        let argument_lists = match check_rectangular(argument_lists) {
            Ok(lists) => lists,
            Err(e) => {
                return Err(e);
            },
        };
        let num_devices: usize = argument_lists.len();
        let num_args: usize = argument_lists[0].len();
        let mut output_lists: Vec<Vec<usize>> = Vec::with_capacity(num_devices);
        let mut d: usize = 0;
        while d < num_devices
            invariant
                d <= num_devices,
                output_lists@.len() == d,
                forall|j: int|
                    0 <= j < d ==> (#[trigger] output_lists@[j])@ == Seq::new(
                        num_outputs as nat,
                        |o: int| 0usize,
                    ),
            decreases num_devices - d,
        {
            output_lists.push(null_row(num_outputs));
            d += 1;
        }
        let device_complete_events = null_row(num_devices);
        let args = ExecuteArgs {
            client: self.client(),
            executable: self.ptr(),
            options: ExecuteOptions::new(),
            argument_lists,
            num_devices,
            num_args,
            output_lists,
            device_complete_events,
        };
        proof {
            let lists = matrix_view(args.argument_lists@);
            assert forall|d: int| 0 <= d < num_devices implies (#[trigger] args.argument_lists@[d])@.len()
                == num_args by {
                assert(lists[d] == args.argument_lists@[d]@);
                assert(lists[0] == args.argument_lists@[0]@);
                assert(lists[d].len() == lists[0].len());
            }
            assert(matrix_view(args.output_lists@) =~= null_matrix(
                num_devices as nat,
                num_outputs as nat,
            ));
        }
        Ok(args)
    }
}

/// What each of a list of events is, in order.
pub open spec fn event_models(events: Seq<Event>) -> Seq<EventModel> {
    Seq::new(events.len(), |i: int| events[i]@)
}

/// The handles of those events that were not consumed yet, in order.
pub open spec fn pending_handles(events: Seq<EventModel>) -> Seq<usize>
    decreases events.len(),
{
    if events.len() == 0 {
        Seq::empty()
    } else {
        let rest = pending_handles(events.drop_last());
        if events.last().consumed {
            rest
        } else {
            rest.push(events.last().handle)
        }
    }
}

/// The first failure among the outcomes of waiting, if any wait failed.
pub open spec fn first_failure(outcomes: Seq<Result<(), Error>>) -> Option<Error>
    decreases outcomes.len(),
{
    if outcomes.len() == 0 {
        None
    } else {
        match outcomes[0] {
            Err(e) => Some(e),
            Ok(_) => first_failure(outcomes.drop_first()),
        }
    }
}

/// What an [`EventDrain`] is: the handles to wait on, how many of them were
/// waited on already, and the first failure seen so far.
pub struct DrainModel {
    pub handles: Seq<usize>,
    pub waited: nat,
    pub failure: Option<Error>,
}

impl DrainModel {
    /// The drain before any wait.
    pub open spec fn start(handles: Seq<usize>) -> DrainModel {
        DrainModel { handles, waited: 0, failure: None }
    }

    /// The handle to wait on next; none once every handle was waited on.
    pub open spec fn next(self) -> Option<usize> {
        if self.waited < self.handles.len() {
            Some(self.handles[self.waited as int])
        } else {
            None
        }
    }

    /// The drain after the outcome of one more wait: the first failure is
    /// kept, and a failure does not stop the drain.
    pub open spec fn record(self, outcome: Result<(), Error>) -> DrainModel {
        DrainModel {
            handles: self.handles,
            waited: self.waited + 1,
            failure: match self.failure {
                Some(e) => Some(e),
                None => match outcome {
                    Err(e) => Some(e),
                    Ok(_) => None,
                },
            },
        }
    }

    /// What the drain yields at its end: the outputs alone if no wait
    /// failed, and the first failure with the outputs beside it otherwise.
    pub open spec fn settle<T>(self, outputs: T) -> Result<T, (Error, T)> {
        match self.failure {
            Some(e) => Err((e, outputs)),
            None => Ok(outputs),
        }
    }

    /// The drain after a run of outcomes, first outcome first.
    pub open spec fn run(self, outcomes: Seq<Result<(), Error>>) -> DrainModel
        decreases outcomes.len(),
    {
        if outcomes.len() == 0 {
            self
        } else {
            self.record(outcomes[0]).run(outcomes.drop_first())
        }
    }
}

/// Waits on the completion events of one execution, all of them, whatever the
/// outcome of each. The caller asks for the next handle, waits on it and
/// destroys it, and records the outcome, until no handle is left.
#[derive(Debug)]
pub struct EventDrain {
    handles: Vec<usize>,
    waited: usize,
    failure: Option<Error>,
}

impl View for EventDrain {
    type V = DrainModel;

    closed spec fn view(&self) -> DrainModel {
        DrainModel { handles: self.handles@, waited: self.waited as nat, failure: self.failure }
    }
}

impl EventDrain {
    #[verifier::type_invariant]
    spec fn in_range(self) -> bool {
        self.waited <= self.handles@.len()
    }

    /// Takes over the events of one execution. Events that were consumed
    /// before are left out; the handle of every other event is claimed.
    pub fn new(events: Vec<Event>) -> (drain: EventDrain)
        ensures
            drain@ == DrainModel::start(pending_handles(event_models(events@))),
    {
        let mut handles: Vec<usize> = Vec::with_capacity(events.len());
        let mut i: usize = 0;
        while i < events.len()
            invariant
                i <= events@.len(),
                handles@ == pending_handles(event_models(events@).subrange(0, i as int)),
            decreases events.len() - i,
        {
            proof {
                let models = event_models(events@);
                assert(models.subrange(0, i + 1).drop_last() == models.subrange(0, i as int));
                assert(models.subrange(0, i + 1).last() == events@[i as int]@);
            }
            if !events[i].is_consumed() {
                handles.push(events[i].ptr());
            }
            i += 1;
        }
        assert(event_models(events@).subrange(0, events@.len() as int) == event_models(events@));
        EventDrain { handles, waited: 0, failure: None }
    }

    /// The handle to wait on and destroy next, or nothing when every event
    /// was waited on. Failures recorded so far do not change the answer.
    pub fn next(&self) -> (r: Option<usize>)
        ensures
            r == self@.next(),
    {
        proof {
            use_type_invariant(self);
        }
        if self.waited < self.handles.len() {
            Some(self.handles[self.waited])
        } else {
            None
        }
    }

    /// Records the outcome of the wait on the handle that [`EventDrain::next`]
    /// gave out.
    pub fn record(&mut self, outcome: Result<(), Error>)
        requires
            old(self)@.next().is_some(),
        ensures
            final(self)@ == old(self)@.record(outcome),
    {
        let n: usize = self.handles.len();
        assert(self.waited < n);
        self.waited = self.waited + 1;
        if self.failure.is_none() {
            if let Err(e) = outcome {
                self.failure = Some(e);
            }
        }
    }

    /// Ends the drain once no handle is left. The outputs go back to the
    /// caller whatever happened: alone if every wait succeeded, and beside
    /// the first failure otherwise, for the caller to decide whether the
    /// buffers of a device that failed can be used.
    pub fn finish<T>(self, outputs: T) -> (r: Result<T, (Error, T)>)
        requires
            self@.next().is_none(),
        ensures
            r == self@.settle(outputs),
    {
        match self.failure {
            Some(e) => Err((e, outputs)),
            None => Ok(outputs),
        }
    }
}

/// Recording a run of outcomes counts each of them and keeps the handles.
pub proof fn lemma_run_counts(m: DrainModel, outcomes: Seq<Result<(), Error>>)
    ensures
        m.run(outcomes).handles == m.handles,
        m.run(outcomes).waited == m.waited + outcomes.len(),
        m.failure.is_some() ==> m.run(outcomes).failure == m.failure,
        m.failure.is_none() ==> m.run(outcomes).failure == first_failure(outcomes),
    decreases outcomes.len(),
{
    if outcomes.len() > 0 {
        lemma_run_counts(m.record(outcomes[0]), outcomes.drop_first());
    }
}

/// Every event is waited on, whatever happened before it: after any `k`
/// outcomes, with `k` less than the number of events, the drain still hands
/// out the handle of event `k`. Once there is one outcome per event nothing is
/// left to wait on, and the failure kept is the first among the outcomes.
pub proof fn lemma_drain_waits_on_all(handles: Seq<usize>, outcomes: Seq<Result<(), Error>>)
    requires
        outcomes.len() <= handles.len(),
    ensures
        outcomes.len() < handles.len() ==> DrainModel::start(handles).run(outcomes).next() == Some(
            handles[outcomes.len() as int],
        ),
        outcomes.len() == handles.len() ==> DrainModel::start(handles).run(outcomes).next()
            == None::<usize>,
        DrainModel::start(handles).run(outcomes).failure == first_failure(outcomes),
{
    lemma_run_counts(DrainModel::start(handles), outcomes);
}

/// Whatever the waits gave, the outputs of a successful execution call reach
/// the caller: alone when every wait succeeded, and otherwise beside the
/// failure of the first wait that failed.
pub proof fn lemma_outputs_are_yielded<T>(
    handles: Seq<usize>,
    outcomes: Seq<Result<(), Error>>,
    outputs: T,
)
    requires
        outcomes.len() == handles.len(),
    ensures
        DrainModel::start(handles).run(outcomes).next() == None::<usize>,
        DrainModel::start(handles).run(outcomes).settle(outputs) == match first_failure(outcomes) {
            Some(e) => Err::<T, (Error, T)>((e, outputs)),
            None => Ok::<T, (Error, T)>(outputs),
        },
{
    lemma_run_counts(DrainModel::start(handles), outcomes);
}

} // verus!
