pub mod cleanup;
