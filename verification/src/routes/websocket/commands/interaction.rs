pub mod interaction_return;
