//! Tuples of extractors as extractors.
//!
//! The members of a tuple run in the order in which the tuple names them, each
//! on the head as the one before left it. The first failure ends the run: the
//! members after it are not started, so the head stays as the failing member
//! left it, and the tuple's rejection is that member's, tagged with its place.
//! When every member succeeds, the tuple's value holds their values in order.
//!
//! Each `extracts` below says exactly that, member by member: `head1`,
//! `head2`, ... are the heads between the members.

use vstd::prelude::*;
use http::request::Parts;
use crate::rejection::any_rejections::{Eight, Five, Four, Seven, Six, Three, Two};
use crate::request::FromParts;

verus! {

impl<P, A, B> FromParts<P> for (A, B) where
    A: FromParts<P>,
    B: FromParts<P>,
{
    type Rejection = Two<A::Rejection, B::Rejection>;

    open spec fn extracts(before: Parts, after: Parts, outcome: Result<Self, Self::Rejection>) -> bool {
        exists|head1: Parts, a: Result<A, A::Rejection>| #[trigger] A::extracts(before, head1, a) && match a {
            Err(r) => after == head1 && outcome == Err::<Self, Self::Rejection>(Two::A(r)),
            Ok(a) => exists|b: Result<B, B::Rejection>| #[trigger] B::extracts(head1, after, b) && match b {
                Err(r) => outcome == Err::<Self, Self::Rejection>(Two::B(r)),
                Ok(b) => outcome == Ok::<Self, Self::Rejection>((a, b)),
            },
        }
    }

    fn from_parts(parts: &mut Parts) -> (outcome: Result<Self, Self::Rejection>)
        ensures
            <(A, B) as FromParts<P>>::extracts(*old(parts), *final(parts), outcome),
    {
        let a = match A::from_parts(parts) {
            Ok(value) => value,
            Err(rejection) => return Err(Two::A(rejection)),
        };
        let b = match B::from_parts(parts) {
            Ok(value) => value,
            Err(rejection) => return Err(Two::B(rejection)),
        };
        Ok((a, b))
    }
}

impl<P, A, B, C> FromParts<P> for (A, B, C) where
    A: FromParts<P>,
    B: FromParts<P>,
    C: FromParts<P>,
{
    type Rejection = Three<A::Rejection, B::Rejection, C::Rejection>;

    open spec fn extracts(before: Parts, after: Parts, outcome: Result<Self, Self::Rejection>) -> bool {
        exists|head1: Parts, a: Result<A, A::Rejection>| #[trigger] A::extracts(before, head1, a) && match a {
            Err(r) => after == head1 && outcome == Err::<Self, Self::Rejection>(Three::A(r)),
            Ok(a) => exists|head2: Parts, b: Result<B, B::Rejection>| #[trigger] B::extracts(head1, head2, b) && match b {
                Err(r) => after == head2 && outcome == Err::<Self, Self::Rejection>(Three::B(r)),
                Ok(b) => exists|c: Result<C, C::Rejection>| #[trigger] C::extracts(head2, after, c) && match c {
                    Err(r) => outcome == Err::<Self, Self::Rejection>(Three::C(r)),
                    Ok(c) => outcome == Ok::<Self, Self::Rejection>((a, b, c)),
                },
            },
        }
    }

    fn from_parts(parts: &mut Parts) -> (outcome: Result<Self, Self::Rejection>)
        ensures
            <(A, B, C) as FromParts<P>>::extracts(*old(parts), *final(parts), outcome),
    {
        let a = match A::from_parts(parts) {
            Ok(value) => value,
            Err(rejection) => return Err(Three::A(rejection)),
        };
        let b = match B::from_parts(parts) {
            Ok(value) => value,
            Err(rejection) => return Err(Three::B(rejection)),
        };
        let c = match C::from_parts(parts) {
            Ok(value) => value,
            Err(rejection) => return Err(Three::C(rejection)),
        };
        Ok((a, b, c))
    }
}

impl<P, A, B, C, D> FromParts<P> for (A, B, C, D) where
    A: FromParts<P>,
    B: FromParts<P>,
    C: FromParts<P>,
    D: FromParts<P>,
{
    type Rejection = Four<A::Rejection, B::Rejection, C::Rejection, D::Rejection>;

    open spec fn extracts(before: Parts, after: Parts, outcome: Result<Self, Self::Rejection>) -> bool {
        exists|head1: Parts, a: Result<A, A::Rejection>| #[trigger] A::extracts(before, head1, a) && match a {
            Err(r) => after == head1 && outcome == Err::<Self, Self::Rejection>(Four::A(r)),
            Ok(a) => exists|head2: Parts, b: Result<B, B::Rejection>| #[trigger] B::extracts(head1, head2, b) && match b {
                Err(r) => after == head2 && outcome == Err::<Self, Self::Rejection>(Four::B(r)),
                Ok(b) => exists|head3: Parts, c: Result<C, C::Rejection>| #[trigger] C::extracts(head2, head3, c) && match c {
                    Err(r) => after == head3 && outcome == Err::<Self, Self::Rejection>(Four::C(r)),
                    Ok(c) => exists|d: Result<D, D::Rejection>| #[trigger] D::extracts(head3, after, d) && match d {
                        Err(r) => outcome == Err::<Self, Self::Rejection>(Four::D(r)),
                        Ok(d) => outcome == Ok::<Self, Self::Rejection>((a, b, c, d)),
                    },
                },
            },
        }
    }

    fn from_parts(parts: &mut Parts) -> (outcome: Result<Self, Self::Rejection>)
        ensures
            <(A, B, C, D) as FromParts<P>>::extracts(*old(parts), *final(parts), outcome),
    {
        let a = match A::from_parts(parts) {
            Ok(value) => value,
            Err(rejection) => return Err(Four::A(rejection)),
        };
        let b = match B::from_parts(parts) {
            Ok(value) => value,
            Err(rejection) => return Err(Four::B(rejection)),
        };
        let c = match C::from_parts(parts) {
            Ok(value) => value,
            Err(rejection) => return Err(Four::C(rejection)),
        };
        let d = match D::from_parts(parts) {
            Ok(value) => value,
            Err(rejection) => return Err(Four::D(rejection)),
        };
        Ok((a, b, c, d))
    }
}

impl<P, A, B, C, D, E> FromParts<P> for (A, B, C, D, E) where
    A: FromParts<P>,
    B: FromParts<P>,
    C: FromParts<P>,
    D: FromParts<P>,
    E: FromParts<P>,
{
    type Rejection = Five<
        A::Rejection,
        B::Rejection,
        C::Rejection,
        D::Rejection,
        E::Rejection,
    >;

    open spec fn extracts(before: Parts, after: Parts, outcome: Result<Self, Self::Rejection>) -> bool {
        exists|head1: Parts, a: Result<A, A::Rejection>| #[trigger] A::extracts(before, head1, a) && match a {
            Err(r) => after == head1 && outcome == Err::<Self, Self::Rejection>(Five::A(r)),
            Ok(a) => exists|head2: Parts, b: Result<B, B::Rejection>| #[trigger] B::extracts(head1, head2, b) && match b {
                Err(r) => after == head2 && outcome == Err::<Self, Self::Rejection>(Five::B(r)),
                Ok(b) => exists|head3: Parts, c: Result<C, C::Rejection>| #[trigger] C::extracts(head2, head3, c) && match c {
                    Err(r) => after == head3 && outcome == Err::<Self, Self::Rejection>(Five::C(r)),
                    Ok(c) => exists|head4: Parts, d: Result<D, D::Rejection>| #[trigger] D::extracts(head3, head4, d) && match d {
                        Err(r) => after == head4 && outcome == Err::<Self, Self::Rejection>(Five::D(r)),
                        Ok(d) => exists|e: Result<E, E::Rejection>| #[trigger] E::extracts(head4, after, e) && match e {
                            Err(r) => outcome == Err::<Self, Self::Rejection>(Five::E(r)),
                            Ok(e) => outcome == Ok::<Self, Self::Rejection>((a, b, c, d, e)),
                        },
                    },
                },
            },
        }
    }

    fn from_parts(parts: &mut Parts) -> (outcome: Result<Self, Self::Rejection>)
        ensures
            <(A, B, C, D, E) as FromParts<P>>::extracts(*old(parts), *final(parts), outcome),
    {
        let a = match A::from_parts(parts) {
            Ok(value) => value,
            Err(rejection) => return Err(Five::A(rejection)),
        };
        let b = match B::from_parts(parts) {
            Ok(value) => value,
            Err(rejection) => return Err(Five::B(rejection)),
        };
        let c = match C::from_parts(parts) {
            Ok(value) => value,
            Err(rejection) => return Err(Five::C(rejection)),
        };
        let d = match D::from_parts(parts) {
            Ok(value) => value,
            Err(rejection) => return Err(Five::D(rejection)),
        };
        let e = match E::from_parts(parts) {
            Ok(value) => value,
            Err(rejection) => return Err(Five::E(rejection)),
        };
        Ok((a, b, c, d, e))
    }
}

impl<P, A, B, C, D, E, F> FromParts<P> for (A, B, C, D, E, F) where
    A: FromParts<P>,
    B: FromParts<P>,
    C: FromParts<P>,
    D: FromParts<P>,
    E: FromParts<P>,
    F: FromParts<P>,
{
    type Rejection = Six<
        A::Rejection,
        B::Rejection,
        C::Rejection,
        D::Rejection,
        E::Rejection,
        F::Rejection,
    >;

    open spec fn extracts(before: Parts, after: Parts, outcome: Result<Self, Self::Rejection>) -> bool {
        exists|head1: Parts, a: Result<A, A::Rejection>| #[trigger] A::extracts(before, head1, a) && match a {
            Err(r) => after == head1 && outcome == Err::<Self, Self::Rejection>(Six::A(r)),
            Ok(a) => exists|head2: Parts, b: Result<B, B::Rejection>| #[trigger] B::extracts(head1, head2, b) && match b {
                Err(r) => after == head2 && outcome == Err::<Self, Self::Rejection>(Six::B(r)),
                Ok(b) => exists|head3: Parts, c: Result<C, C::Rejection>| #[trigger] C::extracts(head2, head3, c) && match c {
                    Err(r) => after == head3 && outcome == Err::<Self, Self::Rejection>(Six::C(r)),
                    Ok(c) => exists|head4: Parts, d: Result<D, D::Rejection>| #[trigger] D::extracts(head3, head4, d) && match d {
                        Err(r) => after == head4 && outcome == Err::<Self, Self::Rejection>(Six::D(r)),
                        Ok(d) => exists|head5: Parts, e: Result<E, E::Rejection>| #[trigger] E::extracts(head4, head5, e) && match e {
                            Err(r) => after == head5 && outcome == Err::<Self, Self::Rejection>(Six::E(r)),
                            Ok(e) => exists|f: Result<F, F::Rejection>| #[trigger] F::extracts(head5, after, f) && match f {
                                Err(r) => outcome == Err::<Self, Self::Rejection>(Six::F(r)),
                                Ok(f) => outcome == Ok::<Self, Self::Rejection>((a, b, c, d, e, f)),
                            },
                        },
                    },
                },
            },
        }
    }

    fn from_parts(parts: &mut Parts) -> (outcome: Result<Self, Self::Rejection>)
        ensures
            <(A, B, C, D, E, F) as FromParts<P>>::extracts(*old(parts), *final(parts), outcome),
    {
        let a = match A::from_parts(parts) {
            Ok(value) => value,
            Err(rejection) => return Err(Six::A(rejection)),
        };
        let b = match B::from_parts(parts) {
            Ok(value) => value,
            Err(rejection) => return Err(Six::B(rejection)),
        };
        let c = match C::from_parts(parts) {
            Ok(value) => value,
            Err(rejection) => return Err(Six::C(rejection)),
        };
        let d = match D::from_parts(parts) {
            Ok(value) => value,
            Err(rejection) => return Err(Six::D(rejection)),
        };
        let e = match E::from_parts(parts) {
            Ok(value) => value,
            Err(rejection) => return Err(Six::E(rejection)),
        };
        let f = match F::from_parts(parts) {
            Ok(value) => value,
            Err(rejection) => return Err(Six::F(rejection)),
        };
        Ok((a, b, c, d, e, f))
    }
}

impl<P, A, B, C, D, E, F, G> FromParts<P> for (A, B, C, D, E, F, G) where
    A: FromParts<P>,
    B: FromParts<P>,
    C: FromParts<P>,
    D: FromParts<P>,
    E: FromParts<P>,
    F: FromParts<P>,
    G: FromParts<P>,
{
    type Rejection = Seven<
        A::Rejection,
        B::Rejection,
        C::Rejection,
        D::Rejection,
        E::Rejection,
        F::Rejection,
        G::Rejection,
    >;

    open spec fn extracts(before: Parts, after: Parts, outcome: Result<Self, Self::Rejection>) -> bool {
        exists|head1: Parts, a: Result<A, A::Rejection>| #[trigger] A::extracts(before, head1, a) && match a {
            Err(r) => after == head1 && outcome == Err::<Self, Self::Rejection>(Seven::A(r)),
            Ok(a) => exists|head2: Parts, b: Result<B, B::Rejection>| #[trigger] B::extracts(head1, head2, b) && match b {
                Err(r) => after == head2 && outcome == Err::<Self, Self::Rejection>(Seven::B(r)),
                Ok(b) => exists|head3: Parts, c: Result<C, C::Rejection>| #[trigger] C::extracts(head2, head3, c) && match c {
                    Err(r) => after == head3 && outcome == Err::<Self, Self::Rejection>(Seven::C(r)),
                    Ok(c) => exists|head4: Parts, d: Result<D, D::Rejection>| #[trigger] D::extracts(head3, head4, d) && match d {
                        Err(r) => after == head4 && outcome == Err::<Self, Self::Rejection>(Seven::D(r)),
                        Ok(d) => exists|head5: Parts, e: Result<E, E::Rejection>| #[trigger] E::extracts(head4, head5, e) && match e {
                            Err(r) => after == head5 && outcome == Err::<Self, Self::Rejection>(Seven::E(r)),
                            Ok(e) => exists|head6: Parts, f: Result<F, F::Rejection>| #[trigger] F::extracts(head5, head6, f) && match f {
                                Err(r) => after == head6 && outcome == Err::<Self, Self::Rejection>(Seven::F(r)),
                                Ok(f) => exists|g: Result<G, G::Rejection>| #[trigger] G::extracts(head6, after, g) && match g {
                                    Err(r) => outcome == Err::<Self, Self::Rejection>(Seven::G(r)),
                                    Ok(g) => outcome == Ok::<Self, Self::Rejection>((a, b, c, d, e, f, g)),
                                },
                            },
                        },
                    },
                },
            },
        }
    }

    fn from_parts(parts: &mut Parts) -> (outcome: Result<Self, Self::Rejection>)
        ensures
            <(A, B, C, D, E, F, G) as FromParts<P>>::extracts(*old(parts), *final(parts), outcome),
    {
        let a = match A::from_parts(parts) {
            Ok(value) => value,
            Err(rejection) => return Err(Seven::A(rejection)),
        };
        let b = match B::from_parts(parts) {
            Ok(value) => value,
            Err(rejection) => return Err(Seven::B(rejection)),
        };
        let c = match C::from_parts(parts) {
            Ok(value) => value,
            Err(rejection) => return Err(Seven::C(rejection)),
        };
        let d = match D::from_parts(parts) {
            Ok(value) => value,
            Err(rejection) => return Err(Seven::D(rejection)),
        };
        let e = match E::from_parts(parts) {
            Ok(value) => value,
            Err(rejection) => return Err(Seven::E(rejection)),
        };
        let f = match F::from_parts(parts) {
            Ok(value) => value,
            Err(rejection) => return Err(Seven::F(rejection)),
        };
        let g = match G::from_parts(parts) {
            Ok(value) => value,
            Err(rejection) => return Err(Seven::G(rejection)),
        };
        Ok((a, b, c, d, e, f, g))
    }
}

impl<P, A, B, C, D, E, F, G, H> FromParts<P> for (A, B, C, D, E, F, G, H) where
    A: FromParts<P>,
    B: FromParts<P>,
    C: FromParts<P>,
    D: FromParts<P>,
    E: FromParts<P>,
    F: FromParts<P>,
    G: FromParts<P>,
    H: FromParts<P>,
{
    type Rejection = Eight<
        A::Rejection,
        B::Rejection,
        C::Rejection,
        D::Rejection,
        E::Rejection,
        F::Rejection,
        G::Rejection,
        H::Rejection,
    >;

    open spec fn extracts(before: Parts, after: Parts, outcome: Result<Self, Self::Rejection>) -> bool {
        exists|head1: Parts, a: Result<A, A::Rejection>| #[trigger] A::extracts(before, head1, a) && match a {
            Err(r) => after == head1 && outcome == Err::<Self, Self::Rejection>(Eight::A(r)),
            Ok(a) => exists|head2: Parts, b: Result<B, B::Rejection>| #[trigger] B::extracts(head1, head2, b) && match b {
                Err(r) => after == head2 && outcome == Err::<Self, Self::Rejection>(Eight::B(r)),
                Ok(b) => exists|head3: Parts, c: Result<C, C::Rejection>| #[trigger] C::extracts(head2, head3, c) && match c {
                    Err(r) => after == head3 && outcome == Err::<Self, Self::Rejection>(Eight::C(r)),
                    Ok(c) => exists|head4: Parts, d: Result<D, D::Rejection>| #[trigger] D::extracts(head3, head4, d) && match d {
                        Err(r) => after == head4 && outcome == Err::<Self, Self::Rejection>(Eight::D(r)),
                        Ok(d) => exists|head5: Parts, e: Result<E, E::Rejection>| #[trigger] E::extracts(head4, head5, e) && match e {
                            Err(r) => after == head5 && outcome == Err::<Self, Self::Rejection>(Eight::E(r)),
                            Ok(e) => exists|head6: Parts, f: Result<F, F::Rejection>| #[trigger] F::extracts(head5, head6, f) && match f {
                                Err(r) => after == head6 && outcome == Err::<Self, Self::Rejection>(Eight::F(r)),
                                Ok(f) => exists|head7: Parts, g: Result<G, G::Rejection>| #[trigger] G::extracts(head6, head7, g) && match g {
                                    Err(r) => after == head7 && outcome == Err::<Self, Self::Rejection>(Eight::G(r)),
                                    Ok(g) => exists|h: Result<H, H::Rejection>| #[trigger] H::extracts(head7, after, h) && match h {
                                        Err(r) => outcome == Err::<Self, Self::Rejection>(Eight::H(r)),
                                        Ok(h) => outcome == Ok::<Self, Self::Rejection>((a, b, c, d, e, f, g, h)),
                                    },
                                },
                            },
                        },
                    },
                },
            },
        }
    }

    fn from_parts(parts: &mut Parts) -> (outcome: Result<Self, Self::Rejection>)
        ensures
            <(A, B, C, D, E, F, G, H) as FromParts<P>>::extracts(*old(parts), *final(parts), outcome),
    {
        let a = match A::from_parts(parts) {
            Ok(value) => value,
            Err(rejection) => return Err(Eight::A(rejection)),
        };
        let b = match B::from_parts(parts) {
            Ok(value) => value,
            Err(rejection) => return Err(Eight::B(rejection)),
        };
        let c = match C::from_parts(parts) {
            Ok(value) => value,
            Err(rejection) => return Err(Eight::C(rejection)),
        };
        let d = match D::from_parts(parts) {
            Ok(value) => value,
            Err(rejection) => return Err(Eight::D(rejection)),
        };
        let e = match E::from_parts(parts) {
            Ok(value) => value,
            Err(rejection) => return Err(Eight::E(rejection)),
        };
        let f = match F::from_parts(parts) {
            Ok(value) => value,
            Err(rejection) => return Err(Eight::F(rejection)),
        };
        let g = match G::from_parts(parts) {
            Ok(value) => value,
            Err(rejection) => return Err(Eight::G(rejection)),
        };
        let h = match H::from_parts(parts) {
            Ok(value) => value,
            Err(rejection) => return Err(Eight::H(rejection)),
        };
        Ok((a, b, c, d, e, f, g, h))
    }
}

} // verus!
