use bevy_agb::{debug_level_for, max_level, AlreadyClaimed, DebugLevel, LogLevel, MgbaLogger, OnceFlag};

#[test]
fn level_mapping() {
    assert_eq!(debug_level_for(LogLevel::Error), Some(DebugLevel::Error));
    assert_eq!(debug_level_for(LogLevel::Warn), Some(DebugLevel::Warning));
    assert_eq!(debug_level_for(LogLevel::Info), Some(DebugLevel::Info));
    assert_eq!(debug_level_for(LogLevel::Debug), Some(DebugLevel::Debug));
    assert_eq!(debug_level_for(LogLevel::Trace), None);
    assert_eq!(max_level(), LogLevel::Info);
}

#[test]
fn only_info_and_above_are_printed() {
    let logger = MgbaLogger;
    assert!(logger.enabled(LogLevel::Error));
    assert!(logger.enabled(LogLevel::Info));
    assert!(!logger.enabled(LogLevel::Debug));
    assert!(!logger.enabled(LogLevel::Trace));
    assert_eq!(logger.log(LogLevel::Warn), Some(DebugLevel::Warning));
    assert_eq!(logger.log(LogLevel::Info), Some(DebugLevel::Info));
    assert_eq!(logger.log(LogLevel::Debug), None);
    assert_eq!(logger.log(LogLevel::Trace), None);
}

#[test]
fn once_flag_refuses_second_claim() {
    let mut flag = OnceFlag::new();
    assert_eq!(flag.claim(), Ok(()));
    assert_eq!(flag.claim(), Err(AlreadyClaimed));
    assert_eq!(flag.claim(), Err(AlreadyClaimed));
    assert!(flag.claimed);
}
