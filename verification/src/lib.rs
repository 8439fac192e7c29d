//! Verified core of a Finnish imageboard: access levels, authorization
//! decisions, form validation, the chat room server and the websocket
//! session registries.

pub mod access;
pub mod assoc;
pub mod chat;
pub mod command;
pub mod text;
pub mod validation;
pub mod forms;
pub mod gate;
pub mod posting;
pub mod password;
pub mod auth;
pub mod ws;
pub mod catalog;
pub mod reply_flow;
pub mod thread_flow;
pub mod account_flow;
pub mod board_api;
pub mod page_flow;
pub mod chat_socket;
pub mod admin;
