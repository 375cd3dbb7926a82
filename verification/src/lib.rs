//! A fake-activity log simulator: a small state machine that emits endless,
//! randomly chosen, timestamped log lines imitating a busy system — tasks,
//! warnings, errors and retries. Each iteration either retries the one
//! pending failed task or picks a fresh branch at random; the step function
//! returns the lines to emit and the pauses to make, and a thin driver
//! performs them.
pub mod catalog;
pub mod clock;
pub mod line;
pub mod random;
pub mod sim;
pub mod text;
