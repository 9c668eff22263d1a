//! Payloads delivered to the external event gateway.

pub mod media_dto;
