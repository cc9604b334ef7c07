pub mod sign_mod;
