//! A chat bot's command logic: a quote store, an emoji sampler, a health
//! prober's decisions, a joke fallback and the table that routes messages to
//! commands.

pub mod api_checker;
pub mod bot;
pub mod dispatch;
pub mod emoji;
pub mod guysay;
pub mod health;
pub mod jokes;
pub mod quotes;
pub mod random;
pub mod text;
