use envmon::cycle::{Action, DisplayError, Event, LogEntry, Monitor};
use envmon::reading::{Reading, SensorError};

fn run_cycle(
    monitor: &mut Monitor,
    clear: Result<(), DisplayError>,
    sensor: Result<Reading, SensorError>,
    draw1: Result<(), DisplayError>,
    draw2: Result<(), DisplayError>,
    flush: Result<(), DisplayError>,
) -> Vec<LogEntry> {
    let mut logs = Vec::new();
    assert_eq!(monitor.pending_action(), Action::Wait);
    logs.extend(monitor.advance(Event::TickElapsed));
    assert_eq!(monitor.pending_action(), Action::ClearDisplay);
    logs.extend(monitor.advance(Event::ClearDone(clear)));
    assert_eq!(monitor.pending_action(), Action::ReadSensor);
    logs.extend(monitor.advance(Event::SensorRead(sensor)));
    assert_eq!(monitor.pending_action(), Action::DrawFirstLine);
    logs.extend(monitor.advance(Event::FirstDrawn(draw1)));
    assert_eq!(monitor.pending_action(), Action::DrawSecondLine);
    logs.extend(monitor.advance(Event::SecondDrawn(draw2)));
    assert_eq!(monitor.pending_action(), Action::FlushDisplay);
    logs.extend(monitor.advance(Event::FlushDone(flush)));
    assert_eq!(monitor.pending_action(), Action::Wait);
    logs
}

#[test]
fn successful_cycle_renders_reading() {
    let mut monitor = Monitor::new();
    let reading = Reading::new(2346, 5510);
    let logs = run_cycle(&mut monitor, Ok(()), Ok(reading), Ok(()), Ok(()), Ok(()));
    assert_eq!(monitor.first_line(), "Temp: 23.46°C".as_bytes());
    assert_eq!(monitor.second_line(), "Humi: 55.10%".as_bytes());
    assert_eq!(
        logs,
        vec![
            LogEntry::ScreenCleared,
            LogEntry::ReadingTaken(reading),
            LogEntry::LineDrawn,
            LogEntry::LineDrawn,
            LogEntry::Flushed,
        ]
    );
}

#[test]
fn sensor_timeout_shows_error_and_still_flushes() {
    let mut monitor = Monitor::new();
    let logs = run_cycle(
        &mut monitor,
        Ok(()),
        Err(SensorError::Timeout),
        Ok(()),
        Ok(()),
        Ok(()),
    );
    assert_eq!(monitor.first_line(), b"Error".as_slice());
    assert_eq!(monitor.second_line(), b"Error".as_slice());
    assert!(logs.contains(&LogEntry::ReadFailed(SensorError::Timeout)));
    assert!(logs.contains(&LogEntry::Flushed));
}

#[test]
fn clear_failure_does_not_stop_the_cycle() {
    let mut monitor = Monitor::new();
    let reading = Reading::new(1800, 4000);
    let logs = run_cycle(
        &mut monitor,
        Err(DisplayError::BusWrite),
        Ok(reading),
        Ok(()),
        Ok(()),
        Ok(()),
    );
    assert_eq!(monitor.first_line(), "Temp: 18.00°C".as_bytes());
    assert_eq!(monitor.second_line(), "Humi: 40.00%".as_bytes());
    assert_eq!(
        logs,
        vec![
            LogEntry::ClearFailed(DisplayError::BusWrite),
            LogEntry::ReadingTaken(reading),
            LogEntry::LineDrawn,
            LogEntry::LineDrawn,
            LogEntry::Flushed,
        ]
    );
}

#[test]
fn draw_failure_still_attempts_second_draw_and_flush() {
    let mut monitor = Monitor::new();
    let reading = Reading::new(-1025, 9999);
    let logs = run_cycle(
        &mut monitor,
        Ok(()),
        Ok(reading),
        Err(DisplayError::OutOfBounds),
        Ok(()),
        Err(DisplayError::BusWrite),
    );
    assert_eq!(monitor.first_line(), "Temp: -10.25°C".as_bytes());
    assert_eq!(monitor.second_line(), "Humi: 99.99%".as_bytes());
    assert_eq!(
        logs,
        vec![
            LogEntry::ScreenCleared,
            LogEntry::ReadingTaken(reading),
            LogEntry::DrawFailed(DisplayError::OutOfBounds),
            LogEntry::LineDrawn,
            LogEntry::FlushFailed(DisplayError::BusWrite),
        ]
    );
}

#[test]
fn failed_cycle_leaves_no_residue_in_the_next() {
    let mut monitor = Monitor::new();
    let logs1 = run_cycle(
        &mut monitor,
        Ok(()),
        Err(SensorError::ChecksumMismatch),
        Ok(()),
        Ok(()),
        Err(DisplayError::BusWrite),
    );
    assert_eq!(monitor.first_line(), b"Error".as_slice());
    assert!(logs1.contains(&LogEntry::ReadFailed(SensorError::ChecksumMismatch)));

    let reading = Reading::new(2012, 3307);
    let logs2 = run_cycle(&mut monitor, Ok(()), Ok(reading), Ok(()), Ok(()), Ok(()));
    assert_eq!(monitor.first_line(), "Temp: 20.12°C".as_bytes());
    assert_eq!(monitor.second_line(), "Humi: 33.07%".as_bytes());
    assert_eq!(
        logs2,
        vec![
            LogEntry::ScreenCleared,
            LogEntry::ReadingTaken(reading),
            LogEntry::LineDrawn,
            LogEntry::LineDrawn,
            LogEntry::Flushed,
        ]
    );
}

#[test]
fn out_of_range_reading_overflows_and_is_logged() {
    let mut monitor = Monitor::new();
    let reading = Reading::new(2_000_000_000, 4200);
    let logs = run_cycle(&mut monitor, Ok(()), Ok(reading), Ok(()), Ok(()), Ok(()));
    // "Temp: 20000000.00°C" does not fit a line buffer: the line stays
    // as it was (empty) and the overflow is logged; the cycle goes on.
    assert_eq!(monitor.first_line(), b"".as_slice());
    assert_eq!(monitor.second_line(), "Humi: 42.00%".as_bytes());
    assert!(logs.contains(&LogEntry::LineOverflow));
    assert!(logs.contains(&LogEntry::Flushed));
}

#[test]
fn log_entries_carry_their_severity() {
    assert!(!LogEntry::ScreenCleared.is_error());
    assert!(!LogEntry::ReadingTaken(Reading::new(0, 0)).is_error());
    assert!(!LogEntry::LineDrawn.is_error());
    assert!(!LogEntry::Flushed.is_error());
    assert!(LogEntry::ClearFailed(DisplayError::BusWrite).is_error());
    assert!(LogEntry::ReadFailed(SensorError::Timeout).is_error());
    assert!(LogEntry::LineOverflow.is_error());
    assert!(LogEntry::DrawFailed(DisplayError::OutOfBounds).is_error());
    assert!(LogEntry::FlushFailed(DisplayError::BusWrite).is_error());
}
