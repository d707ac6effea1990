pub mod fun;
pub mod general;
pub mod moderation;
pub mod security;
