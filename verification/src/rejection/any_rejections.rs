//! The rejections of tuples of extractors.
//!
//! A tuple of `N` extractors fails as soon as one member fails. Its rejection
//! says which member that was (the variant) and carries that member's own
//! rejection unchanged (the variant's field). No variant ever stands for more
//! than one member.

use vstd::prelude::*;

verus! {

/// The rejection of a tuple of two extractors.
#[derive(Debug, PartialEq, Eq)]
pub enum Two<A, B> {
    A(A),
    B(B),
}

/// The rejection of a tuple of three extractors.
#[derive(Debug, PartialEq, Eq)]
pub enum Three<A, B, C> {
    A(A),
    B(B),
    C(C),
}

/// The rejection of a tuple of four extractors.
#[derive(Debug, PartialEq, Eq)]
pub enum Four<A, B, C, D> {
    A(A),
    B(B),
    C(C),
    D(D),
}

/// The rejection of a tuple of five extractors.
#[derive(Debug, PartialEq, Eq)]
pub enum Five<A, B, C, D, E> {
    A(A),
    B(B),
    C(C),
    D(D),
    E(E),
}

/// The rejection of a tuple of six extractors.
#[derive(Debug, PartialEq, Eq)]
pub enum Six<A, B, C, D, E, F> {
    A(A),
    B(B),
    C(C),
    D(D),
    E(E),
    F(F),
}

/// The rejection of a tuple of seven extractors.
#[derive(Debug, PartialEq, Eq)]
pub enum Seven<A, B, C, D, E, F, G> {
    A(A),
    B(B),
    C(C),
    D(D),
    E(E),
    F(F),
    G(G),
}

/// The rejection of a tuple of eight extractors.
#[derive(Debug, PartialEq, Eq)]
pub enum Eight<A, B, C, D, E, F, G, H> {
    A(A),
    B(B),
    C(C),
    D(D),
    E(E),
    F(F),
    G(G),
    H(H),
}

} // verus!
