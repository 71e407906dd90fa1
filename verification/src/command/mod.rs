//! What the commands of the client decide, apart from what they read and
//! print.

pub mod generate;
pub mod insert;
pub mod ls;
pub mod password;
pub mod register;
pub mod rm;
pub mod show;

pub use generate::generate;
pub use insert::insert;
pub use ls::ls;
pub use register::register;
pub use register::unencrypted_post;
pub use rm::rm;
pub use show::show;
