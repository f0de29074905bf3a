pub mod add;
pub mod new;
