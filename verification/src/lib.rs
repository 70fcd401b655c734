//! Automotive diagnostic domain library: UDS frames, status bits, and the
//! modeled workshop data that the diagnostic, information, parts, order and
//! vehicle-identity sites serve.

pub mod order;
pub mod parts;
pub mod parts_request;
pub mod parts_site;
pub mod read_construct;
pub mod repair;
pub mod request;
pub mod select;
pub mod session;
pub mod status;
pub mod catalog;
pub mod citizen;
pub mod citizen_order;
pub mod cli;
pub mod controls;
pub mod diag;
pub mod domain;
pub mod expr;
pub mod flash;
pub mod frame;
pub mod info;
pub mod info_request;
pub mod kernel;
pub mod libs;
pub mod numtext;
pub mod text;
pub mod uds_expr;
pub mod vehicle;
pub mod vehicle_request;
pub mod vehicle_site;
