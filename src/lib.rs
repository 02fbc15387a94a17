//! Controller of a terminal wallet dashboard: the tab cursor, the dispatch of
//! input and timer events, the screen layout, and the choice of the base node
//! peer at start-up.

pub mod dashboard;
pub mod layout;
pub mod peer;
pub mod tabs;

pub use dashboard::{App, Effect, InputEvent};
pub use layout::{screen_layout, Area, ScreenLayout};
pub use peer::{resolve_base_node, BaseNodePeer, OverrideStatus, ResolvedBaseNode, StoreError};
pub use tabs::Tabs;
