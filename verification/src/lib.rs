pub mod app;
pub mod content;
pub mod message;
pub mod model;
pub mod style;
pub mod util;
pub mod view;

pub use app::App;
pub use content::Content;
pub use model::subscribe_irc;
