pub mod registers;
pub mod alu;
pub mod processor;
pub mod arm;
pub mod thumb;
pub mod thumb_transfer;
pub mod thumb_block;
pub mod execute;
pub mod luts;
pub mod defined;
