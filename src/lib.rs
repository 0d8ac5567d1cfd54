//! A chat bot that relays commands and voice messages to a generative-AI
//! service. The library holds the bot's logic: the service's request and
//! response model, and the decisions each command handler makes.
pub mod gateway;
pub mod handlers;
pub mod text;
