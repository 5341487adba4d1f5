pub mod ical;
pub mod taskwarrior;
pub mod timewarrior;
pub mod radicale;
pub mod super_productivity;
