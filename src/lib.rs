pub mod text;
pub mod paths;
pub mod registry;
pub mod launch;
pub mod cdp;
