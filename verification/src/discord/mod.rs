pub mod component;
pub mod external;
pub mod locale;
pub mod member;
pub mod user;
pub mod verification;
pub mod embed;
pub mod option;
pub mod response;
pub mod command;
pub mod interaction;
pub mod registry;
pub mod bot;
