pub mod app_run;
pub mod app_modify;
pub mod nsscreen;
