pub mod emojis;
