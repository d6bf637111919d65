pub mod email;
pub mod hashing;
pub mod id;
pub mod password;
pub mod pattern;
pub mod user;
pub mod repository;
pub mod dtos;
pub mod register_service;
pub mod login_service;
pub mod controllers;
pub mod http;
