//! A singly linked list with push/pop/peek at the head and three
//! iteration modes: consuming, borrowing, and mutably borrowing.

pub mod linked_lists;
