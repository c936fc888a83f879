//! Dense matrix arithmetic over exact numeric element types.
//!
//! A matrix is a row-major buffer with its extents. Its product comes in three ways
//! that give one and the same result: directly, by Strassen's divide and conquer, and
//! through lane groups for the sides 2, 3 and 4. A dispatcher chooses between the first
//! two by the size of the operands.
//!
//! Every element type computes exactly modulo the number of its values, as the machine
//! integers do with their wrapping operations. The contracts speak of matrices as
//! mathematical values, and the laws that relate the operations are proved of them.

pub mod math;
