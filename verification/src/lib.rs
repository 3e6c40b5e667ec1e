//! Verified core of the OpenQuest quiz platform: the quiz, user and protocol
//! models, the rules that the HTTP handlers apply, and the quiz submitter's
//! decisions.

pub mod text;
pub mod clock;
pub mod hashing;
pub mod quiz_model;
pub mod user_model;
pub mod search;
pub mod protocol_model;
pub mod api_response;
pub mod db;
pub mod jwt;
pub mod routes;
pub mod quiz_services;
