pub mod flag;
pub mod notifier;
pub mod oneshot_cell;
pub mod transfer;
