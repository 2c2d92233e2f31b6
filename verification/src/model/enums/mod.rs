//! Enumerations of the domain.

pub mod era;
pub mod nation_status;
pub mod nations;
pub mod submission_status;

pub use self::era::Era;
pub use self::nation_status::NationStatus;
pub use self::nations::Nations;
pub use self::submission_status::SubmissionStatus;
