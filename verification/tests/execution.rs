use pjrt::buffer::Buffer;
use pjrt::error::{Error, ErrorKind};
use pjrt::event::Event;
use pjrt::loaded_executable::{
    check_rectangular, row_handles, EventDrain, ExecuteArgs, ExecuteInputs, ExecuteOptions,
    LoadedExecutable,
};

const CLIENT: usize = 0xc0;

#[test]
fn no_inputs_are_one_device_without_arguments() {
    assert_eq!(().buffer_ptrs(), Ok(vec![vec![]]));
}

#[test]
fn one_buffer_is_one_device_with_one_argument() {
    assert_eq!(Buffer::wrap(CLIENT, 11).buffer_ptrs(), Ok(vec![vec![11]]));
}

#[test]
fn a_list_of_buffers_is_one_device() {
    let inputs = vec![Buffer::wrap(CLIENT, 1), Buffer::wrap(CLIENT, 2), Buffer::wrap(CLIENT, 3)];
    assert_eq!(inputs.buffer_ptrs(), Ok(vec![vec![1, 2, 3]]));
    let none: Vec<Buffer> = vec![];
    assert_eq!(none.buffer_ptrs(), Ok(vec![vec![]]));
}

#[test]
fn an_array_of_buffers_is_one_device() {
    let inputs = [Buffer::wrap(CLIENT, 4), Buffer::wrap(CLIENT, 5)];
    assert_eq!(inputs.buffer_ptrs(), Ok(vec![vec![4, 5]]));
    assert_eq!(row_handles(&inputs), vec![4, 5]);
}

#[test]
fn an_array_of_arrays_is_one_row_per_device() {
    let inputs = [[Buffer::wrap(CLIENT, 1), Buffer::wrap(CLIENT, 2)], [Buffer::wrap(CLIENT, 3), Buffer::wrap(CLIENT, 4)]];
    assert_eq!(inputs.buffer_ptrs(), Ok(vec![vec![1, 2], vec![3, 4]]));
    let none: [[Buffer; 2]; 0] = [];
    assert_eq!(none.buffer_ptrs(), Err(Error::NoDevices));
}

#[test]
fn a_list_of_lists_is_one_row_per_device() {
    let inputs = vec![
        vec![Buffer::wrap(CLIENT, 1), Buffer::wrap(CLIENT, 2)],
        vec![Buffer::wrap(CLIENT, 3), Buffer::wrap(CLIENT, 4)],
        vec![Buffer::wrap(CLIENT, 5), Buffer::wrap(CLIENT, 6)],
    ];
    assert_eq!(inputs.buffer_ptrs(), Ok(vec![vec![1, 2], vec![3, 4], vec![5, 6]]));
}

#[test]
fn unequal_inner_lists_are_refused_before_anything_is_prepared() {
    let inputs = vec![vec![Buffer::wrap(CLIENT, 1), Buffer::wrap(CLIENT, 2)], vec![Buffer::wrap(CLIENT, 3)]];
    let expected = Error::ArgumentCountMismatch { device: 1, expected: 2, found: 1 };
    assert_eq!(inputs.buffer_ptrs(), Err(expected.clone()));
    let executable = LoadedExecutable::wrap(CLIENT, 0x100);
    let err = executable.prepare_execute(vec![vec![1, 2], vec![3]], 1).unwrap_err();
    assert_eq!(err, expected);
    assert_eq!(err.kind(), ErrorKind::CallerPrecondition);
    assert!(err.is_recoverable());
}

#[test]
fn the_first_unequal_list_is_the_one_reported() {
    let lists = vec![vec![1, 2], vec![3, 4], vec![5, 6, 7], vec![8]];
    assert_eq!(
        check_rectangular(lists),
        Err(Error::ArgumentCountMismatch { device: 2, expected: 2, found: 3 })
    );
    assert_eq!(check_rectangular(vec![vec![], vec![1]]),
        Err(Error::ArgumentCountMismatch { device: 1, expected: 0, found: 1 }));
    assert_eq!(check_rectangular(vec![vec![1], vec![2]]), Ok(vec![vec![1], vec![2]]));
}

#[test]
fn an_empty_list_of_lists_is_refused() {
    let inputs: Vec<Vec<Buffer>> = vec![];
    assert_eq!(inputs.buffer_ptrs(), Err(Error::NoDevices));
    assert_eq!(check_rectangular(vec![]), Err(Error::NoDevices));
    let executable = LoadedExecutable::wrap(CLIENT, 0x100);
    let err = executable.prepare_execute(vec![], 3).unwrap_err();
    assert_eq!(err, Error::NoDevices);
    assert_eq!(err.kind(), ErrorKind::CallerPrecondition);
}

#[test]
fn default_options_set_nothing() {
    let options = ExecuteOptions::new();
    assert_eq!(options.num_send_ops, 0);
    assert_eq!(options.num_recv_ops, 0);
    assert_eq!(options.launch_id, 0);
    assert!(options.non_donatable_input_indices.is_empty());
}

#[test]
fn one_device_one_argument_one_output() {
    let executable = LoadedExecutable::wrap(CLIENT, 0x100);
    assert_eq!(executable.ptr(), 0x100);
    let input = Buffer::wrap(CLIENT, 0x200);
    let mut args = executable.prepare_execute(input.buffer_ptrs().unwrap(), 1).unwrap();
    assert_eq!(
        args,
        ExecuteArgs {
            client: CLIENT,
            executable: 0x100,
            options: ExecuteOptions::new(),
            argument_lists: vec![vec![0x200]],
            num_devices: 1,
            num_args: 1,
            output_lists: vec![vec![0]],
            device_complete_events: vec![0],
        }
    );
    assert!(!args.is_filled());
    // The plugin fills the slots.
    args.output_lists[0][0] = 0x300;
    args.device_complete_events[0] = 0x400;
    assert!(args.is_filled());
    let (events, outputs) = args.finish(Ok(())).unwrap();
    assert_eq!(events.len(), 1);
    assert_eq!(events[0].ptr(), 0x400);
    assert!(!events[0].is_consumed());
    assert_eq!(outputs.len(), 1);
    assert_eq!(outputs[0].len(), 1);
    assert_eq!(outputs[0][0].ptr(), 0x300);
    assert_eq!(outputs[0][0].client(), CLIENT);

    let mut drain = EventDrain::new(events);
    assert_eq!(drain.next(), Some(0x400));
    drain.record(Ok(()));
    assert_eq!(drain.next(), None);
    let outputs = drain.finish(outputs).unwrap();
    assert_eq!(outputs[0][0].ptr(), 0x300);
}

#[test]
fn storage_is_sized_by_devices_and_outputs() {
    let executable = LoadedExecutable::wrap(CLIENT, 7);
    let inputs = vec![
        vec![Buffer::wrap(CLIENT, 1), Buffer::wrap(CLIENT, 2)],
        vec![Buffer::wrap(CLIENT, 3), Buffer::wrap(CLIENT, 4)],
        vec![Buffer::wrap(CLIENT, 5), Buffer::wrap(CLIENT, 6)],
    ];
    let mut args = executable.prepare_execute(inputs.buffer_ptrs().unwrap(), 4).unwrap();
    assert_eq!(args.num_devices, 3);
    assert_eq!(args.num_args, 2);
    assert_eq!(args.argument_lists, vec![vec![1, 2], vec![3, 4], vec![5, 6]]);
    assert_eq!(args.output_lists, vec![vec![0usize; 4]; 3]);
    assert_eq!(args.device_complete_events, vec![0usize; 3]);
    for d in 0..3 {
        args.device_complete_events[d] = 100 + d;
        for o in 0..4 {
            args.output_lists[d][o] = 10 * (d + 1) + o;
        }
    }
    assert!(args.is_filled());
    let (events, outputs) = args.finish(Ok(())).unwrap();
    assert_eq!(events.iter().map(|e| e.ptr()).collect::<Vec<_>>(), vec![100, 101, 102]);
    let handles: Vec<Vec<usize>> =
        outputs.iter().map(|row| row.iter().map(|b| b.ptr()).collect()).collect();
    assert_eq!(handles, vec![vec![10, 11, 12, 13], vec![20, 21, 22, 23], vec![30, 31, 32, 33]]);
    assert!(outputs.iter().flatten().all(|b| b.client() == CLIENT));
}

#[test]
fn devices_of_an_executable_belong_to_its_client() {
    let executable = LoadedExecutable::wrap(CLIENT, 7);
    assert_eq!(executable.client(), CLIENT);
    let devices = executable.addressable_devices(&vec![21, 22]);
    assert_eq!(devices.len(), 2);
    assert_eq!(devices[0].ptr(), 21);
    assert_eq!(devices[1].ptr(), 22);
    assert!(devices.iter().all(|d| d.client() == CLIENT));
}

#[test]
fn no_outputs_gives_empty_rows() {
    let executable = LoadedExecutable::wrap(CLIENT, 7);
    let mut args = executable.prepare_execute(().buffer_ptrs().unwrap(), 0).unwrap();
    assert_eq!(args.num_devices, 1);
    assert_eq!(args.num_args, 0);
    assert_eq!(args.output_lists, vec![Vec::<usize>::new()]);
    args.device_complete_events[0] = 9;
    assert!(args.is_filled());
    let (events, outputs) = args.finish(Ok(())).unwrap();
    assert_eq!(events.len(), 1);
    assert_eq!(outputs, vec![Vec::<Buffer>::new()]);
}

#[test]
fn a_null_slot_is_noticed() {
    let executable = LoadedExecutable::wrap(CLIENT, 7);
    let inputs = [Buffer::wrap(CLIENT, 1)];
    let mut args = executable.prepare_execute(inputs.buffer_ptrs().unwrap(), 2).unwrap();
    args.device_complete_events[0] = 9;
    args.output_lists[0][0] = 5;
    assert!(!args.is_filled());
    args.output_lists[0][1] = 6;
    assert!(args.is_filled());
    args.device_complete_events[0] = 0;
    assert!(!args.is_filled());
}

#[test]
fn a_resized_record_is_noticed() {
    let executable = LoadedExecutable::wrap(CLIENT, 7);
    let inputs = [[Buffer::wrap(CLIENT, 1)], [Buffer::wrap(CLIENT, 2)]];
    let args = executable.prepare_execute(inputs.buffer_ptrs().unwrap(), 2).unwrap();
    assert!(args.is_well_formed());
    let mut short_events = args.clone();
    short_events.device_complete_events.pop();
    assert!(!short_events.is_well_formed());
    let mut ragged_outputs = args.clone();
    ragged_outputs.output_lists[1].push(0);
    assert!(!ragged_outputs.is_well_formed());
    let mut ragged_arguments = args.clone();
    ragged_arguments.argument_lists[1].clear();
    assert!(!ragged_arguments.is_well_formed());
    let mut no_devices = args.clone();
    no_devices.num_devices = 0;
    assert!(!no_devices.is_well_formed());
    let mut no_client = args.clone();
    no_client.client = 0;
    assert!(!no_client.is_well_formed());
}

#[test]
fn a_failed_call_yields_only_its_error() {
    let executable = LoadedExecutable::wrap(CLIENT, 7);
    let args = executable.prepare_execute(Buffer::wrap(CLIENT, 1).buffer_ptrs().unwrap(), 2).unwrap();
    // Nothing was filled in: the storage still holds null handles.
    let result = args.finish(Err(Error::PjrtError { msg: String::from("out of memory") }));
    assert_eq!(result, Err(Error::PjrtError { msg: String::from("out of memory") }));
}

#[test]
fn every_event_is_waited_on_after_a_failure() {
    let events = vec![Event::wrap(1), Event::wrap(2), Event::wrap(3), Event::wrap(4)];
    let mut drain = EventDrain::new(events);
    let outcomes = vec![
        Ok(()),
        Err(Error::PjrtError { msg: String::from("first") }),
        Ok(()),
        Err(Error::PjrtError { msg: String::from("second") }),
    ];
    let mut waited = vec![];
    for outcome in outcomes {
        let handle = drain.next().unwrap();
        waited.push(handle);
        drain.record(outcome);
    }
    assert_eq!(waited, vec![1, 2, 3, 4]);
    assert_eq!(drain.next(), None);
    let outputs = vec![vec![Buffer::wrap(CLIENT, 10)], vec![Buffer::wrap(CLIENT, 20)]];
    let (failure, outputs) = drain.finish(outputs).unwrap_err();
    assert_eq!(failure, Error::PjrtError { msg: String::from("first") });
    // The outputs come back beside the failure, those of every device.
    assert_eq!(
        outputs,
        vec![vec![Buffer::wrap(CLIENT, 10)], vec![Buffer::wrap(CLIENT, 20)]]
    );
}

#[test]
fn a_failed_device_still_yields_its_outputs() {
    let executable = LoadedExecutable::wrap(CLIENT, 0x100);
    let mut args = executable
        .prepare_execute(Buffer::wrap(CLIENT, 0x200).buffer_ptrs().unwrap(), 1)
        .unwrap();
    args.output_lists[0][0] = 0x300;
    args.device_complete_events[0] = 0x400;
    let (events, outputs) = args.finish(Ok(())).unwrap();
    let mut drain = EventDrain::new(events);
    assert_eq!(drain.next(), Some(0x400));
    drain.record(Err(Error::PjrtError { msg: String::from("device lost") }));
    assert_eq!(drain.next(), None);
    let (failure, outputs) = drain.finish(outputs).unwrap_err();
    assert_eq!(failure, Error::PjrtError { msg: String::from("device lost") });
    assert_eq!(outputs.len(), 1);
    assert_eq!(outputs[0].len(), 1);
    assert_eq!(outputs[0][0].ptr(), 0x300);
    assert_eq!(outputs[0][0].client(), CLIENT);
}

#[test]
fn a_failed_call_asks_nothing_of_the_storage() {
    let executable = LoadedExecutable::wrap(CLIENT, 7);
    let mut args = executable
        .prepare_execute(Buffer::wrap(CLIENT, 1).buffer_ptrs().unwrap(), 2)
        .unwrap();
    args.output_lists.clear();
    args.device_complete_events.clear();
    assert!(!args.is_well_formed());
    let result = args.finish(Err(Error::PjrtError { msg: String::from("refused") }));
    assert_eq!(result, Err(Error::PjrtError { msg: String::from("refused") }));
}

#[test]
fn consumed_events_are_not_waited_on_again() {
    let mut second = Event::wrap(2);
    assert_eq!(second.claim(), Some(2));
    let drain = EventDrain::new(vec![Event::wrap(1), second, Event::wrap(3)]);
    let mut drain = drain;
    assert_eq!(drain.next(), Some(1));
    drain.record(Ok(()));
    assert_eq!(drain.next(), Some(3));
    drain.record(Ok(()));
    assert_eq!(drain.next(), None);
    assert_eq!(drain.finish(Vec::<Vec<Buffer>>::new()), Ok(vec![]));
}

#[test]
fn a_drain_without_events_finishes_at_once() {
    let drain = EventDrain::new(vec![]);
    assert_eq!(drain.next(), None);
    let outputs = vec![vec![Buffer::wrap(CLIENT, 1)], vec![Buffer::wrap(CLIENT, 2)]];
    let outputs = drain.finish(outputs).unwrap();
    assert_eq!(outputs[1][0].ptr(), 2);
}
