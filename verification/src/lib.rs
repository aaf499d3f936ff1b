//! A minimal polling-based timeout primitive: give a [`Timer`] a duration and
//! poll whether that much time has elapsed since it was last reset. There are
//! no callbacks and no background threads; a timer is a passive value backed
//! by the process's monotonic clock.

pub mod clock;
pub mod span;
pub mod timer;

pub use span::Span;
pub use timer::Timer;
