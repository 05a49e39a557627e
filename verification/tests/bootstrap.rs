use viaduct::bootstrap::{is_sentinel, locate, Handshake, PipeHandles, ReaperHandles};
use viaduct::bootstrap::{ViaductChild, ViaductParent};
use viaduct::doctest::{ExampleRequest, ExampleRpc};
use viaduct::error::{ErrorKind, ViaductError};
use viaduct::handshake::greeting;
use viaduct::wire::{word_size, Endian};

type Child = ViaductChild<ExampleRpc, ExampleRequest, ExampleRpc, ExampleRequest, fn() -> u32>;
type Parent = ViaductParent<ExampleRpc, ExampleRequest, ExampleRpc, ExampleRequest, fn() -> u32>;

fn words(list: &[&str]) -> Vec<String> {
    list.iter().map(|word| word.to_string()).collect()
}

fn forty_two() -> u32 {
    42
}

fn four_handles() -> PipeHandles {
    PipeHandles {
        parent_writer: 3,
        child_reader: 4,
        reaper: Some(ReaperHandles { writer: 5, reader: 6 }),
    }
}

#[test]
fn argument_carryover() {
    let parent = Parent::new(four_handles()).unwrap().arg("Viaduct test!".to_string());
    let (args, handshake) = parent.build();
    assert_eq!(args, words(&["Viaduct test!", "PIPER_START", "3", "4", "5", "6"]));
    assert_eq!(handshake.handles, four_handles());

    let (handshake, own) = Child::new().build_with_args(args).unwrap();
    assert_eq!(own, words(&["Viaduct test!"]));
    assert!(!own.iter().any(|word| word == "PIPER_START"));
    assert_eq!(handshake.handles, four_handles());
    assert!(handshake.with_reaper.is_none());
}

#[test]
fn child_keeps_everything_before_the_start_word() {
    let args = words(&["child.exe", "--verbose", "x", "PIPER_START", "10", "11"]);
    let (handshake, own) = Child::new().build_with_args(args.clone()).unwrap();
    assert_eq!(own, words(&["child.exe", "--verbose", "x"]));
    assert_eq!(
        handshake.handles,
        PipeHandles { parent_writer: 10, child_reader: 11, reaper: None }
    );
    let (_, count) = Child::new().build_with_args_os(&args).unwrap();
    assert_eq!(count, 3);
    assert_eq!(Child::new().build(&args).unwrap().handles.parent_writer, 10);
}

#[test]
fn words_behind_the_handles_are_taken_and_not_returned() {
    let args = words(&["a", "PIPER_START", "1", "2", "3", "4", "extra", "PIPER_START"]);
    let (handshake, own) = Child::new().build_with_args(args).unwrap();
    assert_eq!(own, words(&["a"]));
    assert_eq!(handshake.handles.reaper, Some(ReaperHandles { writer: 3, reader: 4 }));
}

#[test]
fn first_start_word_counts() {
    let args = words(&["PIPER_START", "7", "8", "PIPER_START", "9"]);
    assert_eq!(locate(&args), Err(ViaductError::HandlesMalformed));
    let args = words(&["PIPER_START", "7", "8"]);
    assert_eq!(
        locate(&args),
        Ok((0, PipeHandles { parent_writer: 7, child_reader: 8, reaper: None }))
    );
}

#[test]
fn missing_start_word_is_a_broken_pipe() {
    for args in [words(&[]), words(&["child.exe"]), words(&["piper_start", "1", "2"])] {
        let error = Child::new().build(&args).unwrap_err();
        assert_eq!(error, ViaductError::HandlesNotFound);
        assert_eq!(error.kind(), ErrorKind::BrokenPipe);
        assert!(Child::new().build_with_args(args.clone()).is_err());
        assert!(Child::new().build_with_args_os(&args).is_err());
    }
}

#[test]
fn handles_that_do_not_parse_are_a_broken_pipe() {
    let cases: [&[&str]; 12] = [
        &["PIPER_START"],
        &["PIPER_START", "1"],
        &["PIPER_START", "1", "2", "3"],
        &["PIPER_START", "0", "2"],
        &["PIPER_START", "1", "0"],
        &["PIPER_START", "1", "2", "0", "4"],
        &["PIPER_START", "1", "2", "3", "x"],
        &["PIPER_START", "-1", "2"],
        &["PIPER_START", "1", " 2"],
        &["PIPER_START", "1", ""],
        &["PIPER_START", "18446744073709551616", "2"],
        &["PIPER_START", "1", "0x10"],
    ];
    for case in cases {
        let error = Child::new().build(&words(case)).unwrap_err();
        assert_eq!(error, ViaductError::HandlesMalformed, "case {:?}", case);
        assert_eq!(error.kind(), ErrorKind::BrokenPipe);
    }
}

#[test]
fn largest_handle_is_read() {
    let args = words(&["PIPER_START", "18446744073709551615", "+7"]);
    let handshake = Child::new().build(&args).unwrap();
    assert_eq!(handshake.handles.parent_writer, u64::MAX);
    assert_eq!(handshake.handles.child_reader, 7);
}

#[test]
fn start_word_is_recognised_exactly() {
    assert!(is_sentinel(&"PIPER_START".to_string()));
    assert!(!is_sentinel(&"PIPER_START ".to_string()));
    assert!(!is_sentinel(&"piper_start".to_string()));
    assert!(!is_sentinel(&String::new()));
}

#[test]
fn parent_refuses_a_zero_handle() {
    let zero = PipeHandles { parent_writer: 0, child_reader: 4, reaper: None };
    assert!(!zero.valid());
    assert_eq!(Parent::new(zero).err(), Some(ViaductError::HandlesMalformed));
    let zero = PipeHandles {
        parent_writer: 1,
        child_reader: 4,
        reaper: Some(ReaperHandles { writer: 5, reader: 0 }),
    };
    assert_eq!(Parent::new(zero).err(), Some(ViaductError::HandlesMalformed));
    assert!(four_handles().valid());
}

#[test]
fn parent_appends_start_word_and_handles_behind_the_user_arguments() {
    let handles = PipeHandles { parent_writer: 12, child_reader: 345, reaper: None };
    let parent = Parent::new(handles)
        .unwrap()
        .arg("one".to_string())
        .args(words(&["two", "three"]))
        .arg("four".to_string());
    let (args, _) = parent.build();
    assert_eq!(args, words(&["one", "two", "three", "four", "PIPER_START", "12", "345"]));

    let (args, _) = Parent::new(handles).unwrap().build();
    assert_eq!(args, words(&["PIPER_START", "12", "345"]));
}

#[test]
fn child_reads_what_the_parent_wrote() {
    for handles in [
        four_handles(),
        PipeHandles { parent_writer: u64::MAX, child_reader: 1, reaper: None },
        PipeHandles {
            parent_writer: 1000,
            child_reader: 99,
            reaper: Some(ReaperHandles { writer: 10, reader: 18446744073709551615 }),
        },
    ] {
        let user = words(&["", "-x", "PIPER", "12"]);
        let (args, _) = Parent::new(handles).unwrap().args(user.clone()).build();
        let (handshake, own) = Child::new().build_with_args(args).unwrap();
        assert_eq!(own, user);
        assert_eq!(handshake.handles, handles);
    }
}

#[test]
fn reaper_callback_is_carried_through_the_handshake() {
    let child = Child::new().with_reaper(forty_two);
    let handshake = child.build(&words(&["PIPER_START", "1", "2", "3", "4"])).unwrap();
    assert_eq!(handshake.with_reaper.map(|callback| callback()), Some(42));

    let (_, handshake) = Parent::new(four_handles()).unwrap().with_reaper(forty_two).build();
    let peer = greeting(Endian::native(), word_size());
    let (tx, rx, reaper) = handshake.finish(&peer).unwrap();
    assert_eq!(reaper.map(|callback| callback()), Some(42));
    assert!(!tx.is_broken());
    assert_eq!(rx.expects(), 1);
}

#[test]
fn builders_shake_hands_in_the_order_of_this_machine() {
    let (_, parent) = Parent::new(four_handles()).unwrap().build();
    let child = Child::new().build(&words(&["PIPER_START", "3", "4"])).unwrap();
    assert_eq!(parent.endian, Endian::native());
    assert_eq!(parent.word_size, std::mem::size_of::<usize>() as u128);
    assert_eq!(child.greeting(), greeting(Endian::native(), word_size()));
    let from_child = child.greeting();
    let from_parent = parent.greeting();
    assert!(parent.finish(&from_child).is_ok());
    assert!(child.finish(&from_parent).is_ok());
}

#[test]
fn handshake_with_a_foreign_peer_gives_no_lanes() {
    let handles = PipeHandles { parent_writer: 1, child_reader: 2, reaper: None };
    let side = |endian, word| {
        Handshake::<ExampleRpc, ExampleRequest, ExampleRpc, ExampleRequest, fn() -> u32>::new(
            handles, None, endian, word,
        )
    };
    assert_eq!(
        side(Endian::Little, 8).finish(&greeting(Endian::Big, 8)).err(),
        Some(ViaductError::EndiannessMismatch)
    );
    assert_eq!(
        side(Endian::Big, 8).finish(&greeting(Endian::Little, 8)).err(),
        Some(ViaductError::EndiannessMismatch)
    );
    assert_eq!(
        side(Endian::Little, 8).finish(&greeting(Endian::Little, 4)).err(),
        Some(ViaductError::WordSizeMismatch)
    );
    assert_eq!(
        side(Endian::Little, 8).finish(&[]).err(),
        Some(ViaductError::BrokenPipe)
    );
    assert!(side(Endian::Big, 4).finish(&greeting(Endian::Big, 4)).is_ok());
}
