pub mod multiset;
pub mod name_set;
