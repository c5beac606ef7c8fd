pub mod cards;
pub mod changelog;
pub mod component;
pub mod feature;
pub mod format;
pub mod labels;
pub mod library;
pub mod limits;
pub mod lookup;
pub mod material;
pub mod modal;
pub mod settings;
pub mod sim;
pub mod theme;
pub mod thermal;
pub mod tolerance;
pub mod utils;
