use viaduct::error::ViaductError;
use viaduct::reaper::{DroppablePipe, Reaper, ReaperStep, REAPER_INTERVAL_SECS};

#[test]
fn droppable_pipe_holds_its_pipe_until_taken() {
    let mut holder = DroppablePipe::new(17u32);
    assert!(holder.is_open());
    assert_eq!(holder.pipe(), Ok(&17));
    assert_eq!(holder.take(), Some(17));
    assert!(!holder.is_open());
    assert_eq!(holder.pipe(), Err(ViaductError::BrokenPipe));
    assert_eq!(holder.take(), None);
    assert_eq!(holder.pipe(), Err(ViaductError::BrokenPipe));
}

#[test]
fn reaper_sleeps_while_the_peer_lives() {
    assert_eq!(REAPER_INTERVAL_SECS, 5);
    let mut reaper = Reaper::new(REAPER_INTERVAL_SECS);
    assert_eq!(reaper.observe(Some(1)), ReaperStep::Sleep(5));
    assert_eq!(reaper.observe(Some(1)), ReaperStep::Sleep(5));
    let mut reaper = Reaper::new(30);
    assert_eq!(reaper.observe(Some(4096)), ReaperStep::Sleep(30));
}

#[test]
fn reaper_fires_once_when_the_probe_pipe_closes() {
    let mut reaper = Reaper::new(5);
    assert_eq!(reaper.observe(Some(1)), ReaperStep::Sleep(5));
    assert_eq!(reaper.observe(Some(0)), ReaperStep::Fire);
    assert_eq!(reaper.observe(Some(0)), ReaperStep::Done);
    assert_eq!(reaper.observe(Some(1)), ReaperStep::Done);
    assert_eq!(reaper.observe(None), ReaperStep::Done);
}

#[test]
fn reaper_fires_when_the_probe_pipe_fails() {
    let mut reaper = Reaper::new(5);
    assert_eq!(reaper.observe(None), ReaperStep::Fire);
    assert_eq!(reaper.observe(None), ReaperStep::Done);
}
