pub mod working;
pub mod episodic;
