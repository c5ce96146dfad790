pub mod agent;
pub mod goalstate;
pub mod health;
pub mod metadata;
pub mod osutil;
pub mod provision;
