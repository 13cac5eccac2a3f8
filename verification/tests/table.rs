use wasi_streams::table::HostPollable;
use wasi_streams::table::Kind;
use wasi_streams::table::Resource;
use wasi_streams::table::Table;
use wasi_streams::table::TableError;

type Numbers = Table<u8, u16>;

fn input_of(table: &Numbers, handle: u32) -> Option<(u8, bool)> {
    match table.get(handle, Kind::Input) {
        Ok(Resource::Input { stream, ended, .. }) => Some((*stream, *ended)),
        _ => None,
    }
}

fn output_of(table: &Numbers, handle: u32) -> Option<u16> {
    match table.get(handle, Kind::Output) {
        Ok(Resource::Output(stream)) => Some(*stream),
        _ => None,
    }
}

#[test]
fn handles_are_given_out_in_order() {
    let mut table = Numbers::new();
    assert_eq!(table.push_input_stream(10), Ok(0));
    assert_eq!(table.push_output_stream(20), Ok(1));
    assert_eq!(table.push_host_pollable(HostPollable { target: 0, generation: 1 }), Ok(2));
    assert_eq!(table.push(Resource::Input { stream: 30, pending: vec![7], ended: true }), Ok(3));
    assert_eq!(input_of(&table, 0), Some((10, false)));
    assert_eq!(output_of(&table, 1), Some(20));
    assert_eq!(input_of(&table, 3), Some((30, true)));
}

#[test]
fn push_into_full_table_fails_with_full() {
    let mut table = Numbers::with_capacity(2);
    assert_eq!(table.push_input_stream(1), Ok(0));
    assert_eq!(table.push_output_stream(2), Ok(1));
    assert_eq!(table.push_input_stream(3), Err(TableError::Full));
    assert_eq!(table.push_output_stream(3), Err(TableError::Full));
    assert_eq!(
        table.push_host_pollable(HostPollable { target: 0, generation: 1 }),
        Err(TableError::Full)
    );
    assert_eq!(input_of(&table, 0), Some((1, false)));
    assert_eq!(output_of(&table, 1), Some(2));
}

#[test]
fn table_without_capacity_is_always_full() {
    let mut table = Numbers::with_capacity(0);
    assert_eq!(table.push_input_stream(1), Err(TableError::Full));
}

#[test]
fn lookup_tells_missing_from_wrong_kind() {
    let mut table = Numbers::new();
    let i = table.push_input_stream(1).unwrap();
    let o = table.push_output_stream(2).unwrap();
    assert_eq!(table.get(i, Kind::Output).err(), Some(TableError::WrongType));
    assert_eq!(table.get(i, Kind::Pollable).err(), Some(TableError::WrongType));
    assert_eq!(table.get(o, Kind::Input).err(), Some(TableError::WrongType));
    assert_eq!(table.get(7, Kind::Input).err(), Some(TableError::NotPresent));
    assert_eq!(table.get(u32::MAX, Kind::Output).err(), Some(TableError::NotPresent));
    assert_eq!(table.get_input_stream_mut(o).err(), Some(TableError::WrongType));
    assert_eq!(table.get_input_stream_mut(7).err(), Some(TableError::NotPresent));
    assert_eq!(table.get_output_stream_mut(i).err(), Some(TableError::WrongType));
    assert_eq!(table.get_output_stream_mut(7).err(), Some(TableError::NotPresent));
    assert!(table.find(i).is_some());
    assert!(table.find(7).is_none());
}

#[test]
fn streams_are_changed_in_place() {
    let mut table = Numbers::new();
    let i = table.push_input_stream(1).unwrap();
    let o = table.push_output_stream(2).unwrap();
    *table.get_input_stream_mut(i).unwrap() = 11;
    *table.get_output_stream_mut(o).unwrap() += 20;
    assert_eq!(input_of(&table, i), Some((11, false)));
    assert_eq!(output_of(&table, o), Some(22));
}

#[test]
fn delete_hands_back_the_resource() {
    let mut table = Numbers::new();
    let i = table.push_input_stream(5).unwrap();
    match table.delete(i, Kind::Input) {
        Ok(Resource::Input { stream, pending, ended }) => {
            assert_eq!((stream, pending, ended), (5, vec![], false))
        }
        _ => panic!("the input stream was not handed back"),
    }
    assert_eq!(table.get(i, Kind::Input).err(), Some(TableError::NotPresent));
    assert_eq!(table.delete(i, Kind::Input).err(), Some(TableError::NotPresent));
}

#[test]
fn delete_of_wrong_kind_leaves_the_resource() {
    let mut table = Numbers::new();
    let i = table.push_input_stream(5).unwrap();
    assert_eq!(table.delete(i, Kind::Output).err(), Some(TableError::WrongType));
    assert_eq!(table.delete(i, Kind::Pollable).err(), Some(TableError::WrongType));
    assert_eq!(table.delete(9, Kind::Input).err(), Some(TableError::NotPresent));
    assert_eq!(input_of(&table, i), Some((5, false)));
}

#[test]
fn lowest_free_handle_is_given_out_again() {
    let mut table = Numbers::with_capacity(3);
    assert_eq!(table.push_input_stream(1), Ok(0));
    assert_eq!(table.push_input_stream(2), Ok(1));
    assert_eq!(table.push_input_stream(3), Ok(2));
    assert!(table.delete(2, Kind::Input).is_ok());
    assert!(table.delete(0, Kind::Input).is_ok());
    assert_eq!(table.push_output_stream(4), Ok(0));
    assert_eq!(table.push_output_stream(5), Ok(2));
    assert_eq!(table.push_output_stream(6), Err(TableError::Full));
    assert_eq!(input_of(&table, 1), Some((2, false)));
}

#[test]
fn generations_count_the_resources_of_a_slot() {
    let mut table = Numbers::new();
    assert_eq!(table.generation_of(0), 0);
    let h = table.push_input_stream(1).unwrap();
    assert_eq!(table.generation_of(h), 1);
    assert!(table.delete(h, Kind::Input).is_ok());
    assert_eq!(table.generation_of(h), 1);
    assert_eq!(table.push_output_stream(2), Ok(h));
    assert_eq!(table.generation_of(h), 2);
    assert_eq!(table.generation_of(h + 1), 0);
}

#[test]
fn end_of_input_is_recorded_once_and_for_all() {
    let mut table = Numbers::new();
    let i = table.push_input_stream(1).unwrap();
    let o = table.push_output_stream(2).unwrap();
    table.end_input_stream(i);
    assert_eq!(input_of(&table, i), Some((1, true)));
    table.end_input_stream(i);
    assert_eq!(input_of(&table, i), Some((1, true)));
    table.end_input_stream(o);
    table.end_input_stream(17);
    assert_eq!(output_of(&table, o), Some(2));
    *table.get_input_stream_mut(i).unwrap() = 3;
    assert_eq!(input_of(&table, i), Some((3, true)));
}

#[test]
fn pushed_resource_keeps_its_waiting_bytes() {
    let mut table = Numbers::new();
    let h = table.push(Resource::Input { stream: 1, pending: vec![7, 8], ended: true }).unwrap();
    assert_eq!(table.pending_front(h, 5), vec![7, 8]);
    assert_eq!(input_of(&table, h), Some((1, true)));
}

#[test]
fn waiting_bytes_are_held_once() {
    let mut table = Numbers::new();
    let i = table.push_input_stream(1).unwrap();
    let o = table.push_output_stream(2).unwrap();
    assert_eq!(table.pending_front(i, 5), vec![]);
    table.hold_pending(i, vec![1, 2, 3], false);
    assert_eq!(table.pending_front(i, 5), vec![1, 2, 3]);
    table.hold_pending(i, vec![9], true);
    assert_eq!(table.pending_front(i, 5), vec![1, 2, 3]);
    assert_eq!(input_of(&table, i), Some((1, false)));
    table.hold_pending(o, vec![9], true);
    table.hold_pending(44, vec![9], true);
    assert_eq!(table.pending_front(o, 5), vec![]);
    assert_eq!(table.pending_front(44, 5), vec![]);
    assert_eq!(output_of(&table, o), Some(2));
}

#[test]
fn nothing_is_held_after_the_end() {
    let mut table = Numbers::new();
    let i = table.push_input_stream(1).unwrap();
    table.hold_pending(i, vec![], true);
    assert_eq!(input_of(&table, i), Some((1, true)));
    table.hold_pending(i, vec![5], false);
    assert_eq!(table.pending_front(i, 5), vec![]);
    assert_eq!(input_of(&table, i), Some((1, true)));
}

#[test]
fn waiting_bytes_are_copied_and_dropped_from_the_front() {
    let mut table = Numbers::new();
    let i = table.push_input_stream(1).unwrap();
    table.hold_pending(i, vec![1, 2, 3, 4], true);
    assert_eq!(table.pending_front(i, 0), vec![]);
    assert_eq!(table.pending_front(i, 2), vec![1, 2]);
    assert_eq!(table.pending_front(i, 4), vec![1, 2, 3, 4]);
    assert_eq!(table.pending_front(i, usize::MAX), vec![1, 2, 3, 4]);
    table.drop_pending(i, 0);
    assert_eq!(table.pending_front(i, 9), vec![1, 2, 3, 4]);
    table.drop_pending(i, 3);
    assert_eq!(table.pending_front(i, 9), vec![4]);
    table.drop_pending(i, 3);
    assert_eq!(table.pending_front(i, 9), vec![]);
    table.drop_pending(77, 3);
    assert_eq!(input_of(&table, i), Some((1, true)));
}
