pub mod gain;
pub mod link;
pub mod sample_queue;
pub mod stateful_list;
pub mod supervisor;

pub use stateful_list::StatefulList;
