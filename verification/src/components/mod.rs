pub mod navbar;
