//! Polynomial certificates for the group law of the complete formulas: each
//! lemma shows that a polynomial in the coordinates is a combination of the
//! curve equations of the inputs, expanding every product monomial by
//! monomial.
use vstd::prelude::*;
use vstd::arithmetic::mul::{lemma_mul_is_distributive_add, lemma_mul_is_distributive_add_other_way, lemma_mul_is_commutative};
use crate::polynomial::{Pt, mn, lemma_tm, lemma_vars};
use crate::projective::rcb_add;
use crate::group_law::curve_poly;

verus! {

pub(crate) open spec fn acc_cof0(p: Pt) -> int {
    ((((((((-243) * mn(p, 3, 0, 0, 5, 1, 0, 0) + (486) * mn(p, 3, 0, 0, 4, 1, 1, 1)) + ((27) * mn(p, 3, 0, 0, 3, 3, 0, 1) + (-243) * mn(p, 3, 0, 0, 3, 1, 2, 2))) + (((-486) * mn(p, 3, 0, 0, 3, 1, 2, 0) + (-81) * mn(p, 3, 0, 0, 2, 3, 1, 0)) + ((486) * mn(p, 3, 0, 0, 2, 1, 3, 1) + ((-243) * mn(p, 3, 0, 0, 1, 1, 4, 0) + (27) * mn(p, 3, 0, 0, 0, 3, 3, 0))))) + ((((-243) * mn(p, 2, 1, 0, 6, 0, 0, 0) + (486) * mn(p, 2, 1, 0, 5, 0, 1, 1)) + ((81) * mn(p, 2, 1, 0, 4, 2, 0, 1) + ((-243) * mn(p, 2, 1, 0, 4, 0, 2, 2) + (-243) * mn(p, 2, 1, 0, 4, 0, 2, 0)))) + (((-324) * mn(p, 2, 1, 0, 3, 2, 1, 0) + (-27) * mn(p, 2, 1, 0, 2, 4, 0, 0)) + ((243) * mn(p, 2, 1, 0, 2, 0, 4, 2) + ((243) * mn(p, 2, 1, 0, 2, 0, 4, 0) + (324) * mn(p, 2, 1, 0, 1, 2, 3, 0)))))) + (((((-486) * mn(p, 2, 1, 0, 1, 0, 5, 1) + (27) * mn(p, 2, 1, 0, 0, 4, 2, 0)) + ((-81) * mn(p, 2, 1, 0, 0, 2, 4, 1) + (243) * mn(p, 2, 1, 0, 0, 0, 6, 0))) + (((486) * mn(p, 2, 0, 1, 5, 1, 0, 1) + (-486) * mn(p, 2, 0, 1, 4, 1, 1, 2)) + ((-1458) * mn(p, 2, 0, 1, 4, 1, 1, 0) + ((-162) * mn(p, 2, 0, 1, 3, 3, 0, 0) + (1944) * mn(p, 2, 0, 1, 3, 1, 2, 1))))) + ((((-972) * mn(p, 2, 0, 1, 2, 1, 3, 0) + (486) * mn(p, 2, 0, 1, 1, 3, 2, 0)) + ((-486) * mn(p, 2, 0, 1, 1, 1, 4, 1) + ((-162) * mn(p, 2, 0, 1, 0, 3, 3, 1) + (486) * mn(p, 2, 0, 1, 0, 1, 5, 0)))) + (((81) * mn(p, 1, 2, 0, 5, 1, 0, 1) + (-486) * mn(p, 1, 2, 0, 4, 1, 1, 0)) + ((-27) * mn(p, 1, 2, 0, 3, 3, 0, 0) + ((162) * mn(p, 1, 2, 0, 3, 1, 2, 1) + (-27) * mn(p, 1, 2, 0, 2, 3, 1, 1))))))) + ((((((-81) * mn(p, 1, 2, 0, 2, 1, 3, 2) + (648) * mn(p, 1, 2, 0, 2, 1, 3, 0)) + ((189) * mn(p, 1, 2, 0, 1, 3, 2, 0) + (-243) * mn(p, 1, 2, 0, 1, 1, 4, 1))) + (((9) * mn(p, 1, 2, 0, 0, 5, 1, 0) + (-54) * mn(p, 1, 2, 0, 0, 3, 3, 1)) + ((81) * mn(p, 1, 2, 0, 0, 1, 5, 2) + ((-162) * mn(p, 1, 2, 0, 0, 1, 5, 0) + (486) * mn(p, 1, 1, 1, 6, 0, 0, 1))))) + ((((-486) * mn(p, 1, 1, 1, 5, 0, 1, 2) + (-1458) * mn(p, 1, 1, 1, 5, 0, 1, 0)) + ((-486) * mn(p, 1, 1, 1, 4, 2, 0, 0) + ((1215) * mn(p, 1, 1, 1, 4, 0, 2, 1) + (162) * mn(p, 1, 1, 1, 3, 2, 1, 1)))) + (((972) * mn(p, 1, 1, 1, 3, 0, 3, 2) + (972) * mn(p, 1, 1, 1, 3, 0, 3, 0)) + ((27) * mn(p, 1, 1, 1, 2, 4, 0, 1) + ((1944) * mn(p, 1, 1, 1, 2, 2, 2, 0) + (-243) * mn(p, 1, 1, 1, 2, 0, 4, 3)))))) + (((((-3888) * mn(p, 1, 1, 1, 2, 0, 4, 1) + (162) * mn(p, 1, 1, 1, 1, 4, 1, 0)) + ((-1458) * mn(p, 1, 1, 1, 1, 2, 3, 1) + (972) * mn(p, 1, 1, 1, 1, 0, 5, 2))) + (((2430) * mn(p, 1, 1, 1, 1, 0, 5, 0) + (-108) * mn(p, 1, 1, 1, 0, 4, 2, 1)) + ((324) * mn(p, 1, 1, 1, 0, 2, 4, 2) + ((-162) * mn(p, 1, 1, 1, 0, 2, 4, 0) + (-729) * mn(p, 1, 1, 1, 0, 0, 6, 1))))) + ((((-243) * mn(p, 1, 0, 2, 5, 1, 0, 2) + (-972) * mn(p, 1, 0, 2, 5, 1, 0, 0)) + ((2673) * mn(p, 1, 0, 2, 4, 1, 1, 1) + ((81) * mn(p, 1, 0, 2, 3, 3, 0, 1) + (-486) * mn(p, 1, 0, 2, 3, 1, 2, 2)))) + (((81) * mn(p, 1, 0, 2, 2, 3, 1, 2) + (648) * mn(p, 1, 0, 2, 2, 3, 1, 0)) + ((243) * mn(p, 1, 0, 2, 2, 1, 3, 3) + ((-4374) * mn(p, 1, 0, 2, 2, 1, 3, 1) + (-1215) * mn(p, 1, 0, 2, 1, 3, 2, 1)))))))) + (((((((729) * mn(p, 1, 0, 2, 1, 1, 4, 2) + (4860) * mn(p, 1, 0, 2, 1, 1, 4, 0)) + ((324) * mn(p, 1, 0, 2, 0, 3, 3, 2) + (-1215) * mn(p, 1, 0, 2, 0, 1, 5, 1))) + (((27) * mn(p, 0, 3, 0, 6, 0, 0, 1) + (-162) * mn(p, 0, 3, 0, 5, 0, 1, 0)) + ((-27) * mn(p, 0, 3, 0, 4, 2, 0, 0) + ((540) * mn(p, 0, 3, 0, 3, 0, 3, 0) + (162) * mn(p, 0, 3, 0, 2, 2, 2, 0))))) + ((((-405) * mn(p, 0, 3, 0, 2, 0, 4, 1) + (18) * mn(p, 0, 3, 0, 1, 4, 1, 0)) + ((-108) * mn(p, 0, 3, 0, 1, 2, 3, 1) + ((162) * mn(p, 0, 3, 0, 1, 0, 5, 2) + (-162) * mn(p, 0, 3, 0, 1, 0, 5, 0)))) + (((1) * mn(p, 0, 3, 0, 0, 6, 0, 0) + (-9) * mn(p, 0, 3, 0, 0, 4, 2, 1)) + ((27) * mn(p, 0, 3, 0, 0, 2, 4, 2) + ((-27) * mn(p, 0, 3, 0, 0, 2, 4, 0) + (-27) * mn(p, 0, 3, 0, 0, 0, 6, 3)))))) + (((((54) * mn(p, 0, 3, 0, 0, 0, 6, 1) + (-567) * mn(p, 0, 2, 1, 5, 1, 0, 0)) + ((648) * mn(p, 0, 2, 1, 4, 1, 1, 1) + (27) * mn(p, 0, 2, 1, 3, 3, 0, 1))) + (((-243) * mn(p, 0, 2, 1, 3, 1, 2, 2) + (1458) * mn(p, 0, 2, 1, 3, 1, 2, 0)) + ((459) * mn(p, 0, 2, 1, 2, 3, 1, 0) + ((-1782) * mn(p, 0, 2, 1, 2, 1, 3, 1) + (-540) * mn(p, 0, 2, 1, 1, 3, 2, 1))))) + ((((972) * mn(p, 0, 2, 1, 1, 1, 4, 2) + (-567) * mn(p, 0, 2, 1, 1, 1, 4, 0)) + ((-18) * mn(p, 0, 2, 1, 0, 5, 1, 1) + ((108) * mn(p, 0, 2, 1, 0, 3, 3, 2) + (135) * mn(p, 0, 2, 1, 0, 3, 3, 0)))) + (((-162) * mn(p, 0, 2, 1, 0, 1, 5, 3) + (162) * mn(p, 0, 2, 1, 0, 1, 5, 1)) + ((-243) * mn(p, 0, 1, 2, 6, 0, 0, 2) + ((-1215) * mn(p, 0, 1, 2, 6, 0, 0, 0) + (3402) * mn(p, 0, 1, 2, 5, 0, 1, 1))))))) + ((((((405) * mn(p, 0, 1, 2, 4, 2, 0, 1) + (-486) * mn(p, 0, 1, 2, 4, 0, 2, 2)) + ((729) * mn(p, 0, 1, 2, 4, 0, 2, 0) + (972) * mn(p, 0, 1, 2, 3, 2, 1, 0))) + (((-9720) * mn(p, 0, 1, 2, 3, 0, 3, 1) + (-27) * mn(p, 0, 1, 2, 2, 4, 0, 0)) + ((-3888) * mn(p, 0, 1, 2, 2, 2, 2, 1) + ((5346) * mn(p, 0, 1, 2, 2, 0, 4, 2) + (8991) * mn(p, 0, 1, 2, 2, 0, 4, 0))))) + ((((-324) * mn(p, 0, 1, 2, 1, 4, 1, 1) + (1944) * mn(p, 0, 1, 2, 1, 2, 3, 2)) + ((1620) * mn(p, 0, 1, 2, 1, 2, 3, 0) + ((-972) * mn(p, 0, 1, 2, 1, 0, 5, 3) + (-5346) * mn(p, 0, 1, 2, 1, 0, 5, 1)))) + (((108) * mn(p, 0, 1, 2, 0, 4, 2, 2) + (243) * mn(p, 0, 1, 2, 0, 4, 2, 0)) + ((-324) * mn(p, 0, 1, 2, 0, 2, 4, 3) + ((-405) * mn(p, 0, 1, 2, 0, 2, 4, 1) + (1215) * mn(p, 0, 1, 2, 0, 0, 6, 2)))))) + (((((-729) * mn(p, 0, 1, 2, 0, 0, 6, 0) + (1701) * mn(p, 0, 0, 3, 5, 1, 0, 1)) + ((-972) * mn(p, 0, 0, 3, 4, 1, 1, 2) + (-3402) * mn(p, 0, 0, 3, 4, 1, 1, 0))) + (((-27) * mn(p, 0, 0, 3, 3, 3, 0, 2) + (54) * mn(p, 0, 0, 3, 3, 3, 0, 0)) + ((243) * mn(p, 0, 0, 3, 3, 1, 2, 3) + ((-3402) * mn(p, 0, 0, 3, 3, 1, 2, 1) + (-1539) * mn(p, 0, 0, 3, 2, 3, 1, 1))))) + ((((3402) * mn(p, 0, 0, 3, 2, 1, 3, 2) + (10692) * mn(p, 0, 0, 3, 2, 1, 3, 0)) + ((972) * mn(p, 0, 0, 3, 1, 3, 2, 2) + ((2430) * mn(p, 0, 0, 3, 1, 3, 2, 0) + (-972) * mn(p, 0, 0, 3, 1, 1, 4, 3)))) + (((-7047) * mn(p, 0, 0, 3, 1, 1, 4, 1) + (-216) * mn(p, 0, 0, 3, 0, 3, 3, 3)) + ((-729) * mn(p, 0, 0, 3, 0, 3, 3, 1) + ((1944) * mn(p, 0, 0, 3, 0, 1, 5, 2) + (-1458) * mn(p, 0, 0, 3, 0, 1, 5, 0)))))))))
}

pub(crate) open spec fn acc_cof1(p: Pt) -> int {
    (((((((-27) * mn(p, 2, 4, 0, 2, 1, 0, 0) + ((27) * mn(p, 2, 4, 0, 1, 1, 1, 1) + (-27) * mn(p, 2, 4, 0, 0, 1, 2, 0))) + (((-324) * mn(p, 2, 3, 1, 3, 0, 0, 0) + (486) * mn(p, 2, 3, 1, 2, 0, 1, 1)) + ((54) * mn(p, 2, 3, 1, 1, 2, 0, 1) + (-162) * mn(p, 2, 3, 1, 1, 0, 2, 2)))) + (((-324) * mn(p, 2, 3, 1, 1, 0, 2, 0) + ((-108) * mn(p, 2, 3, 1, 0, 2, 1, 0) + (162) * mn(p, 2, 3, 1, 0, 0, 3, 1))) + (((729) * mn(p, 2, 2, 2, 2, 1, 0, 1) + (-486) * mn(p, 2, 2, 2, 1, 1, 1, 2)) + ((-972) * mn(p, 2, 2, 2, 1, 1, 1, 0) + (-81) * mn(p, 2, 2, 2, 0, 3, 0, 0))))) + ((((729) * mn(p, 2, 2, 2, 0, 1, 2, 1) + ((2187) * mn(p, 2, 1, 3, 3, 0, 0, 1) + (-1944) * mn(p, 2, 1, 3, 2, 0, 1, 2))) + (((-5346) * mn(p, 2, 1, 3, 2, 0, 1, 0) + (-162) * mn(p, 2, 1, 3, 1, 2, 0, 2)) + ((-810) * mn(p, 2, 1, 3, 1, 2, 0, 0) + (486) * mn(p, 2, 1, 3, 1, 0, 2, 3)))) + (((4617) * mn(p, 2, 1, 3, 1, 0, 2, 1) + ((729) * mn(p, 2, 1, 3, 0, 2, 1, 1) + (-1215) * mn(p, 2, 1, 3, 0, 0, 3, 2))) + (((486) * mn(p, 2, 1, 3, 0, 0, 3, 0) + (-972) * mn(p, 2, 0, 4, 2, 1, 0, 2)) + ((-2673) * mn(p, 2, 0, 4, 2, 1, 0, 0) + (243) * mn(p, 2, 0, 4, 1, 1, 1, 3)))))) + (((((5589) * mn(p, 2, 0, 4, 1, 1, 1, 1) + ((-1701) * mn(p, 2, 0, 4, 0, 1, 2, 2) + (243) * mn(p, 2, 0, 4, 0, 1, 2, 0))) + (((81) * mn(p, 1, 4, 1, 2, 1, 0, 1) + (-324) * mn(p, 1, 4, 1, 1, 1, 1, 0)) + ((-9) * mn(p, 1, 4, 1, 0, 3, 0, 0) + (81) * mn(p, 1, 4, 1, 0, 1, 2, 1)))) + (((567) * mn(p, 1, 3, 2, 3, 0, 0, 1) + ((-486) * mn(p, 1, 3, 2, 2, 0, 1, 2) + (-1458) * mn(p, 1, 3, 2, 2, 0, 1, 0))) + (((-378) * mn(p, 1, 3, 2, 1, 2, 0, 0) + (1701) * mn(p, 1, 3, 2, 1, 0, 2, 1)) + ((189) * mn(p, 1, 3, 2, 0, 2, 1, 1) + (-81) * mn(p, 1, 3, 2, 0, 0, 3, 2))))) + ((((-810) * mn(p, 1, 3, 2, 0, 0, 3, 0) + ((-324) * mn(p, 1, 2, 3, 2, 1, 0, 2) + (-2349) * mn(p, 1, 2, 3, 2, 1, 0, 0))) + (((3645) * mn(p, 1, 2, 3, 1, 1, 1, 1) + (81) * mn(p, 1, 2, 3, 0, 3, 0, 1)) + ((-405) * mn(p, 1, 2, 3, 0, 1, 2, 2) + (-2025) * mn(p, 1, 2, 3, 0, 1, 2, 0)))) + ((((-1215) * mn(p, 1, 1, 4, 3, 0, 0, 2) + (-3888) * mn(p, 1, 1, 4, 3, 0, 0, 0)) + ((486) * mn(p, 1, 1, 4, 2, 0, 1, 3) + (11178) * mn(p, 1, 1, 4, 2, 0, 1, 1))) + (((1458) * mn(p, 1, 1, 4, 1, 2, 0, 1) + (-5589) * mn(p, 1, 1, 4, 1, 0, 2, 2)) + ((-3888) * mn(p, 1, 1, 4, 1, 0, 2, 0) + (-405) * mn(p, 1, 1, 4, 0, 2, 1, 2))))))) + ((((((-1296) * mn(p, 1, 1, 4, 0, 2, 1, 0) + ((729) * mn(p, 1, 1, 4, 0, 0, 3, 3) + (1458) * mn(p, 1, 1, 4, 0, 0, 3, 1))) + (((243) * mn(p, 1, 0, 5, 2, 1, 0, 3) + (5589) * mn(p, 1, 0, 5, 2, 1, 0, 1)) + ((-4617) * mn(p, 1, 0, 5, 1, 1, 1, 2) + (-7776) * mn(p, 1, 0, 5, 1, 1, 1, 0)))) + (((972) * mn(p, 1, 0, 5, 0, 1, 2, 3) + ((2673) * mn(p, 1, 0, 5, 0, 1, 2, 1) + (1) * mn(p, 0, 6, 0, 0, 3, 0, 0))) + (((27) * mn(p, 0, 5, 1, 3, 0, 0, 1) + (-162) * mn(p, 0, 5, 1, 2, 0, 1, 0)) + ((-18) * mn(p, 0, 5, 1, 1, 2, 0, 0) + (81) * mn(p, 0, 5, 1, 1, 0, 2, 1))))) + ((((9) * mn(p, 0, 5, 1, 0, 2, 1, 1) + ((-27) * mn(p, 0, 5, 1, 0, 0, 3, 2) + (54) * mn(p, 0, 5, 1, 0, 0, 3, 0))) + (((-540) * mn(p, 0, 4, 2, 2, 1, 0, 0) + (540) * mn(p, 0, 4, 2, 1, 1, 1, 1)) + ((18) * mn(p, 0, 4, 2, 0, 3, 0, 1) + (-135) * mn(p, 0, 4, 2, 0, 1, 2, 2)))) + ((((-270) * mn(p, 0, 3, 3, 3, 0, 0, 2) + (-1188) * mn(p, 0, 3, 3, 3, 0, 0, 0)) + ((3402) * mn(p, 0, 3, 3, 2, 0, 1, 1) + (378) * mn(p, 0, 3, 3, 1, 2, 0, 1))) + (((-972) * mn(p, 0, 3, 3, 1, 0, 2, 2) + (-2916) * mn(p, 0, 3, 3, 1, 0, 2, 0)) + ((-162) * mn(p, 0, 3, 3, 0, 2, 1, 2) + (-108) * mn(p, 0, 3, 3, 0, 2, 1, 0)))))) + (((((54) * mn(p, 0, 3, 3, 0, 0, 3, 3) + ((918) * mn(p, 0, 3, 3, 0, 0, 3, 1) + (2187) * mn(p, 0, 2, 4, 2, 1, 0, 1))) + (((-1296) * mn(p, 0, 2, 4, 1, 1, 1, 2) + (-3564) * mn(p, 0, 2, 4, 1, 1, 1, 0)) + ((-27) * mn(p, 0, 2, 4, 0, 3, 0, 2) + (27) * mn(p, 0, 2, 4, 0, 3, 0, 0)))) + (((162) * mn(p, 0, 2, 4, 0, 1, 2, 3) + ((1539) * mn(p, 0, 2, 4, 0, 1, 2, 1) + (243) * mn(p, 0, 1, 5, 3, 0, 0, 3))) + (((1215) * mn(p, 0, 1, 5, 3, 0, 0, 1) + (-3402) * mn(p, 0, 1, 5, 2, 0, 1, 2)) + ((486) * mn(p, 0, 1, 5, 2, 0, 1, 0) + (-324) * mn(p, 0, 1, 5, 1, 2, 0, 2))))) + ((((-162) * mn(p, 0, 1, 5, 1, 2, 0, 0) + ((1215) * mn(p, 0, 1, 5, 1, 0, 2, 3) + (1701) * mn(p, 0, 1, 5, 1, 0, 2, 1))) + (((81) * mn(p, 0, 1, 5, 0, 2, 1, 3) + (405) * mn(p, 0, 1, 5, 0, 2, 1, 1)) + ((-243) * mn(p, 0, 1, 5, 0, 0, 3, 4) + (243) * mn(p, 0, 1, 5, 0, 0, 3, 2)))) + ((((-1458) * mn(p, 0, 1, 5, 0, 0, 3, 0) + (-1701) * mn(p, 0, 0, 6, 2, 1, 0, 2)) + ((243) * mn(p, 0, 0, 6, 2, 1, 0, 0) + (972) * mn(p, 0, 0, 6, 1, 1, 1, 3))) + (((2673) * mn(p, 0, 0, 6, 1, 1, 1, 1) + (-243) * mn(p, 0, 0, 6, 0, 1, 2, 4)) + ((-486) * mn(p, 0, 0, 6, 0, 1, 2, 2) + (-729) * mn(p, 0, 0, 6, 0, 1, 2, 0))))))))
}

#[verifier::rlimit(100)]
proof fn aca_prod0(p: Pt)
    ensures
        ((1) * mn(p, 1, 0, 0, 0, 0, 0, 0)) * ((1) * mn(p, 0, 0, 0, 1, 0, 0, 0)) == (1) * mn(p, 1, 0, 0, 1, 0, 0, 0),
{
    let c0 = (1) * mn(p, 1, 0, 0, 0, 0, 0, 0);
    let cc0 = c0;
    assert(cc0 == (1) * mn(p, 1, 0, 0, 0, 0, 0, 0));
    let q = (1) * mn(p, 0, 0, 0, 1, 0, 0, 0);
    aca_prod0_c0(p);
    assert(c0 * q == (1) * mn(p, 1, 0, 0, 1, 0, 0, 0));
    assert(cc0 * q == (1) * mn(p, 1, 0, 0, 1, 0, 0, 0));
}

#[verifier::rlimit(100)]
proof fn aca_prod0_c0(p: Pt)
    ensures
        ((1) * mn(p, 1, 0, 0, 0, 0, 0, 0)) * ((1) * mn(p, 0, 0, 0, 1, 0, 0, 0)) == (1) * mn(p, 1, 0, 0, 1, 0, 0, 0),
{
    let t0 = (1) * mn(p, 1, 0, 0, 0, 0, 0, 0);
    let s0 = (1) * mn(p, 0, 0, 0, 1, 0, 0, 0);
    let pp0 = t0;
    let qq0 = s0;
    let q = qq0;
    lemma_tm(p, 1, 1, 0, 0, 0, 0, 0, 0, 1, 0, 0, 0, 1, 0, 0, 0);
    assert(t0 * s0 == (1) * mn(p, 1, 0, 0, 1, 0, 0, 0));
    assert(t0 * q == (1) * mn(p, 1, 0, 0, 1, 0, 0, 0));
    assert(pp0 * q == (1) * mn(p, 1, 0, 0, 1, 0, 0, 0));
    assert(pp0 == (1) * mn(p, 1, 0, 0, 0, 0, 0, 0));
    assert(q == (1) * mn(p, 0, 0, 0, 1, 0, 0, 0));
}

#[verifier::rlimit(100)]
proof fn aca_prod2(p: Pt)
    ensures
        ((1) * mn(p, 0, 1, 0, 0, 0, 0, 0)) * ((1) * mn(p, 0, 0, 0, 0, 1, 0, 0)) == (1) * mn(p, 0, 1, 0, 0, 1, 0, 0),
{
    let c0 = (1) * mn(p, 0, 1, 0, 0, 0, 0, 0);
    let cc0 = c0;
    assert(cc0 == (1) * mn(p, 0, 1, 0, 0, 0, 0, 0));
    let q = (1) * mn(p, 0, 0, 0, 0, 1, 0, 0);
    aca_prod2_c0(p);
    assert(c0 * q == (1) * mn(p, 0, 1, 0, 0, 1, 0, 0));
    assert(cc0 * q == (1) * mn(p, 0, 1, 0, 0, 1, 0, 0));
}

#[verifier::rlimit(100)]
proof fn aca_prod2_c0(p: Pt)
    ensures
        ((1) * mn(p, 0, 1, 0, 0, 0, 0, 0)) * ((1) * mn(p, 0, 0, 0, 0, 1, 0, 0)) == (1) * mn(p, 0, 1, 0, 0, 1, 0, 0),
{
    let t0 = (1) * mn(p, 0, 1, 0, 0, 0, 0, 0);
    let s0 = (1) * mn(p, 0, 0, 0, 0, 1, 0, 0);
    let pp0 = t0;
    let qq0 = s0;
    let q = qq0;
    lemma_tm(p, 1, 0, 1, 0, 0, 0, 0, 0, 1, 0, 0, 0, 0, 1, 0, 0);
    assert(t0 * s0 == (1) * mn(p, 0, 1, 0, 0, 1, 0, 0));
    assert(t0 * q == (1) * mn(p, 0, 1, 0, 0, 1, 0, 0));
    assert(pp0 * q == (1) * mn(p, 0, 1, 0, 0, 1, 0, 0));
    assert(pp0 == (1) * mn(p, 0, 1, 0, 0, 0, 0, 0));
    assert(q == (1) * mn(p, 0, 0, 0, 0, 1, 0, 0));
}

#[verifier::rlimit(100)]
proof fn aca_prod4(p: Pt)
    ensures
        ((1) * mn(p, 0, 0, 1, 0, 0, 0, 0)) * ((1) * mn(p, 0, 0, 0, 0, 0, 1, 0)) == (1) * mn(p, 0, 0, 1, 0, 0, 1, 0),
{
    let c0 = (1) * mn(p, 0, 0, 1, 0, 0, 0, 0);
    let cc0 = c0;
    assert(cc0 == (1) * mn(p, 0, 0, 1, 0, 0, 0, 0));
    let q = (1) * mn(p, 0, 0, 0, 0, 0, 1, 0);
    aca_prod4_c0(p);
    assert(c0 * q == (1) * mn(p, 0, 0, 1, 0, 0, 1, 0));
    assert(cc0 * q == (1) * mn(p, 0, 0, 1, 0, 0, 1, 0));
}

#[verifier::rlimit(100)]
proof fn aca_prod4_c0(p: Pt)
    ensures
        ((1) * mn(p, 0, 0, 1, 0, 0, 0, 0)) * ((1) * mn(p, 0, 0, 0, 0, 0, 1, 0)) == (1) * mn(p, 0, 0, 1, 0, 0, 1, 0),
{
    let t0 = (1) * mn(p, 0, 0, 1, 0, 0, 0, 0);
    let s0 = (1) * mn(p, 0, 0, 0, 0, 0, 1, 0);
    let pp0 = t0;
    let qq0 = s0;
    let q = qq0;
    lemma_tm(p, 1, 0, 0, 1, 0, 0, 0, 0, 1, 0, 0, 0, 0, 0, 1, 0);
    assert(t0 * s0 == (1) * mn(p, 0, 0, 1, 0, 0, 1, 0));
    assert(t0 * q == (1) * mn(p, 0, 0, 1, 0, 0, 1, 0));
    assert(pp0 * q == (1) * mn(p, 0, 0, 1, 0, 0, 1, 0));
    assert(pp0 == (1) * mn(p, 0, 0, 1, 0, 0, 0, 0));
    assert(q == (1) * mn(p, 0, 0, 0, 0, 0, 1, 0));
}

#[verifier::rlimit(100)]
proof fn aca_prod6(p: Pt)
    ensures
        (((1) * mn(p, 1, 0, 0, 0, 0, 0, 0) + (1) * mn(p, 0, 1, 0, 0, 0, 0, 0))) * (((1) * mn(p, 0, 0, 0, 1, 0, 0, 0) + (1) * mn(p, 0, 0, 0, 0, 1, 0, 0))) == (((1) * mn(p, 1, 0, 0, 1, 0, 0, 0) + (1) * mn(p, 1, 0, 0, 0, 1, 0, 0)) + ((1) * mn(p, 0, 1, 0, 1, 0, 0, 0) + (1) * mn(p, 0, 1, 0, 0, 1, 0, 0))),
{
    let c0 = ((1) * mn(p, 1, 0, 0, 0, 0, 0, 0) + (1) * mn(p, 0, 1, 0, 0, 0, 0, 0));
    let cc0 = c0;
    assert(cc0 == ((1) * mn(p, 1, 0, 0, 0, 0, 0, 0) + (1) * mn(p, 0, 1, 0, 0, 0, 0, 0)));
    let q = ((1) * mn(p, 0, 0, 0, 1, 0, 0, 0) + (1) * mn(p, 0, 0, 0, 0, 1, 0, 0));
    aca_prod6_c0(p);
    assert(c0 * q == (((1) * mn(p, 1, 0, 0, 1, 0, 0, 0) + (1) * mn(p, 1, 0, 0, 0, 1, 0, 0)) + ((1) * mn(p, 0, 1, 0, 1, 0, 0, 0) + (1) * mn(p, 0, 1, 0, 0, 1, 0, 0))));
    assert(cc0 * q == (((1) * mn(p, 1, 0, 0, 1, 0, 0, 0) + (1) * mn(p, 1, 0, 0, 0, 1, 0, 0)) + ((1) * mn(p, 0, 1, 0, 1, 0, 0, 0) + (1) * mn(p, 0, 1, 0, 0, 1, 0, 0))));
}

#[verifier::rlimit(100)]
proof fn aca_prod6_c0(p: Pt)
    ensures
        (((1) * mn(p, 1, 0, 0, 0, 0, 0, 0) + (1) * mn(p, 0, 1, 0, 0, 0, 0, 0))) * (((1) * mn(p, 0, 0, 0, 1, 0, 0, 0) + (1) * mn(p, 0, 0, 0, 0, 1, 0, 0))) == (((1) * mn(p, 1, 0, 0, 1, 0, 0, 0) + (1) * mn(p, 1, 0, 0, 0, 1, 0, 0)) + ((1) * mn(p, 0, 1, 0, 1, 0, 0, 0) + (1) * mn(p, 0, 1, 0, 0, 1, 0, 0))),
{
    let t0 = (1) * mn(p, 1, 0, 0, 0, 0, 0, 0);
    let t1 = (1) * mn(p, 0, 1, 0, 0, 0, 0, 0);
    let s0 = (1) * mn(p, 0, 0, 0, 1, 0, 0, 0);
    let s1 = (1) * mn(p, 0, 0, 0, 0, 1, 0, 0);
    let pp0 = t0;
    let pp1 = pp0 + t1;
    let qq0 = s0;
    let qq1 = qq0 + s1;
    let q = qq1;
    lemma_mul_is_distributive_add_other_way(q, pp0, t1);
    lemma_mul_is_distributive_add(t0, qq0, s1);
    lemma_mul_is_distributive_add(t1, qq0, s1);
    lemma_tm(p, 1, 1, 0, 0, 0, 0, 0, 0, 1, 0, 0, 0, 1, 0, 0, 0);
    assert(t0 * s0 == (1) * mn(p, 1, 0, 0, 1, 0, 0, 0));
    lemma_tm(p, 1, 1, 0, 0, 0, 0, 0, 0, 1, 0, 0, 0, 0, 1, 0, 0);
    assert(t0 * s1 == (1) * mn(p, 1, 0, 0, 0, 1, 0, 0));
    assert(t0 * q == (1) * mn(p, 1, 0, 0, 1, 0, 0, 0) + (1) * mn(p, 1, 0, 0, 0, 1, 0, 0));
    lemma_tm(p, 1, 0, 1, 0, 0, 0, 0, 0, 1, 0, 0, 0, 1, 0, 0, 0);
    assert(t1 * s0 == (1) * mn(p, 0, 1, 0, 1, 0, 0, 0));
    lemma_tm(p, 1, 0, 1, 0, 0, 0, 0, 0, 1, 0, 0, 0, 0, 1, 0, 0);
    assert(t1 * s1 == (1) * mn(p, 0, 1, 0, 0, 1, 0, 0));
    assert(t1 * q == (1) * mn(p, 0, 1, 0, 1, 0, 0, 0) + (1) * mn(p, 0, 1, 0, 0, 1, 0, 0));
    assert(pp1 * q == (((1) * mn(p, 1, 0, 0, 1, 0, 0, 0) + (1) * mn(p, 1, 0, 0, 0, 1, 0, 0)) + ((1) * mn(p, 0, 1, 0, 1, 0, 0, 0) + (1) * mn(p, 0, 1, 0, 0, 1, 0, 0))));
    assert(pp1 == ((1) * mn(p, 1, 0, 0, 0, 0, 0, 0) + (1) * mn(p, 0, 1, 0, 0, 0, 0, 0)));
    assert(q == ((1) * mn(p, 0, 0, 0, 1, 0, 0, 0) + (1) * mn(p, 0, 0, 0, 0, 1, 0, 0)));
}

#[verifier::rlimit(100)]
proof fn aca_prod8(p: Pt)
    ensures
        (((1) * mn(p, 0, 1, 0, 0, 0, 0, 0) + (1) * mn(p, 0, 0, 1, 0, 0, 0, 0))) * (((1) * mn(p, 0, 0, 0, 0, 1, 0, 0) + (1) * mn(p, 0, 0, 0, 0, 0, 1, 0))) == (((1) * mn(p, 0, 1, 0, 0, 1, 0, 0) + (1) * mn(p, 0, 1, 0, 0, 0, 1, 0)) + ((1) * mn(p, 0, 0, 1, 0, 1, 0, 0) + (1) * mn(p, 0, 0, 1, 0, 0, 1, 0))),
{
    let c0 = ((1) * mn(p, 0, 1, 0, 0, 0, 0, 0) + (1) * mn(p, 0, 0, 1, 0, 0, 0, 0));
    let cc0 = c0;
    assert(cc0 == ((1) * mn(p, 0, 1, 0, 0, 0, 0, 0) + (1) * mn(p, 0, 0, 1, 0, 0, 0, 0)));
    let q = ((1) * mn(p, 0, 0, 0, 0, 1, 0, 0) + (1) * mn(p, 0, 0, 0, 0, 0, 1, 0));
    aca_prod8_c0(p);
    assert(c0 * q == (((1) * mn(p, 0, 1, 0, 0, 1, 0, 0) + (1) * mn(p, 0, 1, 0, 0, 0, 1, 0)) + ((1) * mn(p, 0, 0, 1, 0, 1, 0, 0) + (1) * mn(p, 0, 0, 1, 0, 0, 1, 0))));
    assert(cc0 * q == (((1) * mn(p, 0, 1, 0, 0, 1, 0, 0) + (1) * mn(p, 0, 1, 0, 0, 0, 1, 0)) + ((1) * mn(p, 0, 0, 1, 0, 1, 0, 0) + (1) * mn(p, 0, 0, 1, 0, 0, 1, 0))));
}

#[verifier::rlimit(100)]
proof fn aca_prod8_c0(p: Pt)
    ensures
        (((1) * mn(p, 0, 1, 0, 0, 0, 0, 0) + (1) * mn(p, 0, 0, 1, 0, 0, 0, 0))) * (((1) * mn(p, 0, 0, 0, 0, 1, 0, 0) + (1) * mn(p, 0, 0, 0, 0, 0, 1, 0))) == (((1) * mn(p, 0, 1, 0, 0, 1, 0, 0) + (1) * mn(p, 0, 1, 0, 0, 0, 1, 0)) + ((1) * mn(p, 0, 0, 1, 0, 1, 0, 0) + (1) * mn(p, 0, 0, 1, 0, 0, 1, 0))),
{
    let t0 = (1) * mn(p, 0, 1, 0, 0, 0, 0, 0);
    let t1 = (1) * mn(p, 0, 0, 1, 0, 0, 0, 0);
    let s0 = (1) * mn(p, 0, 0, 0, 0, 1, 0, 0);
    let s1 = (1) * mn(p, 0, 0, 0, 0, 0, 1, 0);
    let pp0 = t0;
    let pp1 = pp0 + t1;
    let qq0 = s0;
    let qq1 = qq0 + s1;
    let q = qq1;
    lemma_mul_is_distributive_add_other_way(q, pp0, t1);
    lemma_mul_is_distributive_add(t0, qq0, s1);
    lemma_mul_is_distributive_add(t1, qq0, s1);
    lemma_tm(p, 1, 0, 1, 0, 0, 0, 0, 0, 1, 0, 0, 0, 0, 1, 0, 0);
    assert(t0 * s0 == (1) * mn(p, 0, 1, 0, 0, 1, 0, 0));
    lemma_tm(p, 1, 0, 1, 0, 0, 0, 0, 0, 1, 0, 0, 0, 0, 0, 1, 0);
    assert(t0 * s1 == (1) * mn(p, 0, 1, 0, 0, 0, 1, 0));
    assert(t0 * q == (1) * mn(p, 0, 1, 0, 0, 1, 0, 0) + (1) * mn(p, 0, 1, 0, 0, 0, 1, 0));
    lemma_tm(p, 1, 0, 0, 1, 0, 0, 0, 0, 1, 0, 0, 0, 0, 1, 0, 0);
    assert(t1 * s0 == (1) * mn(p, 0, 0, 1, 0, 1, 0, 0));
    lemma_tm(p, 1, 0, 0, 1, 0, 0, 0, 0, 1, 0, 0, 0, 0, 0, 1, 0);
    assert(t1 * s1 == (1) * mn(p, 0, 0, 1, 0, 0, 1, 0));
    assert(t1 * q == (1) * mn(p, 0, 0, 1, 0, 1, 0, 0) + (1) * mn(p, 0, 0, 1, 0, 0, 1, 0));
    assert(pp1 * q == (((1) * mn(p, 0, 1, 0, 0, 1, 0, 0) + (1) * mn(p, 0, 1, 0, 0, 0, 1, 0)) + ((1) * mn(p, 0, 0, 1, 0, 1, 0, 0) + (1) * mn(p, 0, 0, 1, 0, 0, 1, 0))));
    assert(pp1 == ((1) * mn(p, 0, 1, 0, 0, 0, 0, 0) + (1) * mn(p, 0, 0, 1, 0, 0, 0, 0)));
    assert(q == ((1) * mn(p, 0, 0, 0, 0, 1, 0, 0) + (1) * mn(p, 0, 0, 0, 0, 0, 1, 0)));
}

#[verifier::rlimit(100)]
proof fn aca_prod10(p: Pt)
    ensures
        (((1) * mn(p, 1, 0, 0, 0, 0, 0, 0) + (1) * mn(p, 0, 0, 1, 0, 0, 0, 0))) * (((1) * mn(p, 0, 0, 0, 1, 0, 0, 0) + (1) * mn(p, 0, 0, 0, 0, 0, 1, 0))) == (((1) * mn(p, 1, 0, 0, 1, 0, 0, 0) + (1) * mn(p, 1, 0, 0, 0, 0, 1, 0)) + ((1) * mn(p, 0, 0, 1, 1, 0, 0, 0) + (1) * mn(p, 0, 0, 1, 0, 0, 1, 0))),
{
    let c0 = ((1) * mn(p, 1, 0, 0, 0, 0, 0, 0) + (1) * mn(p, 0, 0, 1, 0, 0, 0, 0));
    let cc0 = c0;
    assert(cc0 == ((1) * mn(p, 1, 0, 0, 0, 0, 0, 0) + (1) * mn(p, 0, 0, 1, 0, 0, 0, 0)));
    let q = ((1) * mn(p, 0, 0, 0, 1, 0, 0, 0) + (1) * mn(p, 0, 0, 0, 0, 0, 1, 0));
    aca_prod10_c0(p);
    assert(c0 * q == (((1) * mn(p, 1, 0, 0, 1, 0, 0, 0) + (1) * mn(p, 1, 0, 0, 0, 0, 1, 0)) + ((1) * mn(p, 0, 0, 1, 1, 0, 0, 0) + (1) * mn(p, 0, 0, 1, 0, 0, 1, 0))));
    assert(cc0 * q == (((1) * mn(p, 1, 0, 0, 1, 0, 0, 0) + (1) * mn(p, 1, 0, 0, 0, 0, 1, 0)) + ((1) * mn(p, 0, 0, 1, 1, 0, 0, 0) + (1) * mn(p, 0, 0, 1, 0, 0, 1, 0))));
}

#[verifier::rlimit(100)]
proof fn aca_prod10_c0(p: Pt)
    ensures
        (((1) * mn(p, 1, 0, 0, 0, 0, 0, 0) + (1) * mn(p, 0, 0, 1, 0, 0, 0, 0))) * (((1) * mn(p, 0, 0, 0, 1, 0, 0, 0) + (1) * mn(p, 0, 0, 0, 0, 0, 1, 0))) == (((1) * mn(p, 1, 0, 0, 1, 0, 0, 0) + (1) * mn(p, 1, 0, 0, 0, 0, 1, 0)) + ((1) * mn(p, 0, 0, 1, 1, 0, 0, 0) + (1) * mn(p, 0, 0, 1, 0, 0, 1, 0))),
{
    let t0 = (1) * mn(p, 1, 0, 0, 0, 0, 0, 0);
    let t1 = (1) * mn(p, 0, 0, 1, 0, 0, 0, 0);
    let s0 = (1) * mn(p, 0, 0, 0, 1, 0, 0, 0);
    let s1 = (1) * mn(p, 0, 0, 0, 0, 0, 1, 0);
    let pp0 = t0;
    let pp1 = pp0 + t1;
    let qq0 = s0;
    let qq1 = qq0 + s1;
    let q = qq1;
    lemma_mul_is_distributive_add_other_way(q, pp0, t1);
    lemma_mul_is_distributive_add(t0, qq0, s1);
    lemma_mul_is_distributive_add(t1, qq0, s1);
    lemma_tm(p, 1, 1, 0, 0, 0, 0, 0, 0, 1, 0, 0, 0, 1, 0, 0, 0);
    assert(t0 * s0 == (1) * mn(p, 1, 0, 0, 1, 0, 0, 0));
    lemma_tm(p, 1, 1, 0, 0, 0, 0, 0, 0, 1, 0, 0, 0, 0, 0, 1, 0);
    assert(t0 * s1 == (1) * mn(p, 1, 0, 0, 0, 0, 1, 0));
    assert(t0 * q == (1) * mn(p, 1, 0, 0, 1, 0, 0, 0) + (1) * mn(p, 1, 0, 0, 0, 0, 1, 0));
    lemma_tm(p, 1, 0, 0, 1, 0, 0, 0, 0, 1, 0, 0, 0, 1, 0, 0, 0);
    assert(t1 * s0 == (1) * mn(p, 0, 0, 1, 1, 0, 0, 0));
    lemma_tm(p, 1, 0, 0, 1, 0, 0, 0, 0, 1, 0, 0, 0, 0, 0, 1, 0);
    assert(t1 * s1 == (1) * mn(p, 0, 0, 1, 0, 0, 1, 0));
    assert(t1 * q == (1) * mn(p, 0, 0, 1, 1, 0, 0, 0) + (1) * mn(p, 0, 0, 1, 0, 0, 1, 0));
    assert(pp1 * q == (((1) * mn(p, 1, 0, 0, 1, 0, 0, 0) + (1) * mn(p, 1, 0, 0, 0, 0, 1, 0)) + ((1) * mn(p, 0, 0, 1, 1, 0, 0, 0) + (1) * mn(p, 0, 0, 1, 0, 0, 1, 0))));
    assert(pp1 == ((1) * mn(p, 1, 0, 0, 0, 0, 0, 0) + (1) * mn(p, 0, 0, 1, 0, 0, 0, 0)));
    assert(q == ((1) * mn(p, 0, 0, 0, 1, 0, 0, 0) + (1) * mn(p, 0, 0, 0, 0, 0, 1, 0)));
}

#[verifier::rlimit(100)]
proof fn aca_prod12(p: Pt)
    ensures
        ((1) * mn(p, 0, 0, 0, 0, 0, 0, 1)) * ((1) * mn(p, 0, 0, 1, 0, 0, 1, 0)) == (1) * mn(p, 0, 0, 1, 0, 0, 1, 1),
{
    let c0 = (1) * mn(p, 0, 0, 0, 0, 0, 0, 1);
    let cc0 = c0;
    assert(cc0 == (1) * mn(p, 0, 0, 0, 0, 0, 0, 1));
    let q = (1) * mn(p, 0, 0, 1, 0, 0, 1, 0);
    aca_prod12_c0(p);
    assert(c0 * q == (1) * mn(p, 0, 0, 1, 0, 0, 1, 1));
    assert(cc0 * q == (1) * mn(p, 0, 0, 1, 0, 0, 1, 1));
}

#[verifier::rlimit(100)]
proof fn aca_prod12_c0(p: Pt)
    ensures
        ((1) * mn(p, 0, 0, 0, 0, 0, 0, 1)) * ((1) * mn(p, 0, 0, 1, 0, 0, 1, 0)) == (1) * mn(p, 0, 0, 1, 0, 0, 1, 1),
{
    let t0 = (1) * mn(p, 0, 0, 0, 0, 0, 0, 1);
    let s0 = (1) * mn(p, 0, 0, 1, 0, 0, 1, 0);
    let pp0 = t0;
    let qq0 = s0;
    let q = qq0;
    lemma_tm(p, 1, 0, 0, 0, 0, 0, 0, 1, 1, 0, 0, 1, 0, 0, 1, 0);
    assert(t0 * s0 == (1) * mn(p, 0, 0, 1, 0, 0, 1, 1));
    assert(t0 * q == (1) * mn(p, 0, 0, 1, 0, 0, 1, 1));
    assert(pp0 * q == (1) * mn(p, 0, 0, 1, 0, 0, 1, 1));
    assert(pp0 == (1) * mn(p, 0, 0, 0, 0, 0, 0, 1));
    assert(q == (1) * mn(p, 0, 0, 1, 0, 0, 1, 0));
}

#[verifier::rlimit(100)]
proof fn aca_prod14(p: Pt)
    ensures
        ((1) * mn(p, 0, 0, 0, 0, 0, 0, 1)) * (((1) * mn(p, 1, 0, 0, 0, 0, 1, 0) + (1) * mn(p, 0, 0, 1, 1, 0, 0, 0))) == ((1) * mn(p, 1, 0, 0, 0, 0, 1, 1) + (1) * mn(p, 0, 0, 1, 1, 0, 0, 1)),
{
    let c0 = ((1) * mn(p, 1, 0, 0, 0, 0, 1, 0) + (1) * mn(p, 0, 0, 1, 1, 0, 0, 0));
    let cc0 = c0;
    assert(cc0 == ((1) * mn(p, 1, 0, 0, 0, 0, 1, 0) + (1) * mn(p, 0, 0, 1, 1, 0, 0, 0)));
    let q = (1) * mn(p, 0, 0, 0, 0, 0, 0, 1);
    aca_prod14_c0(p);
    assert(c0 * q == ((1) * mn(p, 1, 0, 0, 0, 0, 1, 1) + (1) * mn(p, 0, 0, 1, 1, 0, 0, 1)));
    assert(cc0 * q == ((1) * mn(p, 1, 0, 0, 0, 0, 1, 1) + (1) * mn(p, 0, 0, 1, 1, 0, 0, 1)));
    lemma_mul_is_commutative(((1) * mn(p, 1, 0, 0, 0, 0, 1, 0) + (1) * mn(p, 0, 0, 1, 1, 0, 0, 0)), (1) * mn(p, 0, 0, 0, 0, 0, 0, 1));
}

#[verifier::rlimit(100)]
proof fn aca_prod14_c0(p: Pt)
    ensures
        (((1) * mn(p, 1, 0, 0, 0, 0, 1, 0) + (1) * mn(p, 0, 0, 1, 1, 0, 0, 0))) * ((1) * mn(p, 0, 0, 0, 0, 0, 0, 1)) == ((1) * mn(p, 1, 0, 0, 0, 0, 1, 1) + (1) * mn(p, 0, 0, 1, 1, 0, 0, 1)),
{
    let t0 = (1) * mn(p, 1, 0, 0, 0, 0, 1, 0);
    let t1 = (1) * mn(p, 0, 0, 1, 1, 0, 0, 0);
    let s0 = (1) * mn(p, 0, 0, 0, 0, 0, 0, 1);
    let pp0 = t0;
    let pp1 = pp0 + t1;
    let qq0 = s0;
    let q = qq0;
    lemma_mul_is_distributive_add_other_way(q, pp0, t1);
    lemma_tm(p, 1, 1, 0, 0, 0, 0, 1, 0, 1, 0, 0, 0, 0, 0, 0, 1);
    assert(t0 * s0 == (1) * mn(p, 1, 0, 0, 0, 0, 1, 1));
    assert(t0 * q == (1) * mn(p, 1, 0, 0, 0, 0, 1, 1));
    lemma_tm(p, 1, 0, 0, 1, 1, 0, 0, 0, 1, 0, 0, 0, 0, 0, 0, 1);
    assert(t1 * s0 == (1) * mn(p, 0, 0, 1, 1, 0, 0, 1));
    assert(t1 * q == (1) * mn(p, 0, 0, 1, 1, 0, 0, 1));
    assert(pp1 * q == ((1) * mn(p, 1, 0, 0, 0, 0, 1, 1) + (1) * mn(p, 0, 0, 1, 1, 0, 0, 1)));
    assert(pp1 == ((1) * mn(p, 1, 0, 0, 0, 0, 1, 0) + (1) * mn(p, 0, 0, 1, 1, 0, 0, 0)));
    assert(q == (1) * mn(p, 0, 0, 0, 0, 0, 0, 1));
}

#[verifier::rlimit(100)]
proof fn aca_prod16(p: Pt)
    ensures
        ((((3) * mn(p, 1, 0, 0, 0, 0, 1, 0) + (1) * mn(p, 0, 1, 0, 0, 1, 0, 0)) + ((3) * mn(p, 0, 0, 1, 1, 0, 0, 0) + (-3) * mn(p, 0, 0, 1, 0, 0, 1, 1)))) * (((1) * mn(p, 1, 0, 0, 0, 1, 0, 0) + (1) * mn(p, 0, 1, 0, 1, 0, 0, 0))) == ((((3) * mn(p, 2, 0, 0, 0, 1, 1, 0) + (3) * mn(p, 1, 1, 0, 1, 0, 1, 0)) + ((1) * mn(p, 1, 1, 0, 0, 2, 0, 0) + (3) * mn(p, 1, 0, 1, 1, 1, 0, 0))) + (((-3) * mn(p, 1, 0, 1, 0, 1, 1, 1) + (1) * mn(p, 0, 2, 0, 1, 1, 0, 0)) + ((3) * mn(p, 0, 1, 1, 2, 0, 0, 0) + (-3) * mn(p, 0, 1, 1, 1, 0, 1, 1)))),
{
    let c0 = (((3) * mn(p, 1, 0, 0, 0, 0, 1, 0) + (1) * mn(p, 0, 1, 0, 0, 1, 0, 0)) + ((3) * mn(p, 0, 0, 1, 1, 0, 0, 0) + (-3) * mn(p, 0, 0, 1, 0, 0, 1, 1)));
    let cc0 = c0;
    assert(cc0 == (((3) * mn(p, 1, 0, 0, 0, 0, 1, 0) + (1) * mn(p, 0, 1, 0, 0, 1, 0, 0)) + ((3) * mn(p, 0, 0, 1, 1, 0, 0, 0) + (-3) * mn(p, 0, 0, 1, 0, 0, 1, 1))));
    let q = ((1) * mn(p, 1, 0, 0, 0, 1, 0, 0) + (1) * mn(p, 0, 1, 0, 1, 0, 0, 0));
    aca_prod16_c0(p);
    assert(c0 * q == ((((3) * mn(p, 2, 0, 0, 0, 1, 1, 0) + (3) * mn(p, 1, 1, 0, 1, 0, 1, 0)) + ((1) * mn(p, 1, 1, 0, 0, 2, 0, 0) + (3) * mn(p, 1, 0, 1, 1, 1, 0, 0))) + (((-3) * mn(p, 1, 0, 1, 0, 1, 1, 1) + (1) * mn(p, 0, 2, 0, 1, 1, 0, 0)) + ((3) * mn(p, 0, 1, 1, 2, 0, 0, 0) + (-3) * mn(p, 0, 1, 1, 1, 0, 1, 1)))));
    assert(cc0 * q == ((((3) * mn(p, 2, 0, 0, 0, 1, 1, 0) + (3) * mn(p, 1, 1, 0, 1, 0, 1, 0)) + ((1) * mn(p, 1, 1, 0, 0, 2, 0, 0) + (3) * mn(p, 1, 0, 1, 1, 1, 0, 0))) + (((-3) * mn(p, 1, 0, 1, 0, 1, 1, 1) + (1) * mn(p, 0, 2, 0, 1, 1, 0, 0)) + ((3) * mn(p, 0, 1, 1, 2, 0, 0, 0) + (-3) * mn(p, 0, 1, 1, 1, 0, 1, 1)))));
}

#[verifier::rlimit(100)]
proof fn aca_prod16_c0(p: Pt)
    ensures
        ((((3) * mn(p, 1, 0, 0, 0, 0, 1, 0) + (1) * mn(p, 0, 1, 0, 0, 1, 0, 0)) + ((3) * mn(p, 0, 0, 1, 1, 0, 0, 0) + (-3) * mn(p, 0, 0, 1, 0, 0, 1, 1)))) * (((1) * mn(p, 1, 0, 0, 0, 1, 0, 0) + (1) * mn(p, 0, 1, 0, 1, 0, 0, 0))) == ((((3) * mn(p, 2, 0, 0, 0, 1, 1, 0) + (3) * mn(p, 1, 1, 0, 1, 0, 1, 0)) + ((1) * mn(p, 1, 1, 0, 0, 2, 0, 0) + (3) * mn(p, 1, 0, 1, 1, 1, 0, 0))) + (((-3) * mn(p, 1, 0, 1, 0, 1, 1, 1) + (1) * mn(p, 0, 2, 0, 1, 1, 0, 0)) + ((3) * mn(p, 0, 1, 1, 2, 0, 0, 0) + (-3) * mn(p, 0, 1, 1, 1, 0, 1, 1)))),
{
    let t0 = (3) * mn(p, 1, 0, 0, 0, 0, 1, 0);
    let t1 = (1) * mn(p, 0, 1, 0, 0, 1, 0, 0);
    let t2 = (3) * mn(p, 0, 0, 1, 1, 0, 0, 0);
    let t3 = (-3) * mn(p, 0, 0, 1, 0, 0, 1, 1);
    let s0 = (1) * mn(p, 1, 0, 0, 0, 1, 0, 0);
    let s1 = (1) * mn(p, 0, 1, 0, 1, 0, 0, 0);
    let pp0 = t0;
    let pp1 = pp0 + t1;
    let pp2 = pp1 + t2;
    let pp3 = pp2 + t3;
    let qq0 = s0;
    let qq1 = qq0 + s1;
    let q = qq1;
    lemma_mul_is_distributive_add_other_way(q, pp0, t1);
    lemma_mul_is_distributive_add_other_way(q, pp1, t2);
    lemma_mul_is_distributive_add_other_way(q, pp2, t3);
    lemma_mul_is_distributive_add(t0, qq0, s1);
    lemma_mul_is_distributive_add(t1, qq0, s1);
    lemma_mul_is_distributive_add(t2, qq0, s1);
    lemma_mul_is_distributive_add(t3, qq0, s1);
    lemma_tm(p, 3, 1, 0, 0, 0, 0, 1, 0, 1, 1, 0, 0, 0, 1, 0, 0);
    assert(t0 * s0 == (3) * mn(p, 2, 0, 0, 0, 1, 1, 0));
    lemma_tm(p, 3, 1, 0, 0, 0, 0, 1, 0, 1, 0, 1, 0, 1, 0, 0, 0);
    assert(t0 * s1 == (3) * mn(p, 1, 1, 0, 1, 0, 1, 0));
    assert(t0 * q == (3) * mn(p, 2, 0, 0, 0, 1, 1, 0) + (3) * mn(p, 1, 1, 0, 1, 0, 1, 0));
    lemma_tm(p, 1, 0, 1, 0, 0, 1, 0, 0, 1, 1, 0, 0, 0, 1, 0, 0);
    assert(t1 * s0 == (1) * mn(p, 1, 1, 0, 0, 2, 0, 0));
    lemma_tm(p, 1, 0, 1, 0, 0, 1, 0, 0, 1, 0, 1, 0, 1, 0, 0, 0);
    assert(t1 * s1 == (1) * mn(p, 0, 2, 0, 1, 1, 0, 0));
    assert(t1 * q == (1) * mn(p, 1, 1, 0, 0, 2, 0, 0) + (1) * mn(p, 0, 2, 0, 1, 1, 0, 0));
    lemma_tm(p, 3, 0, 0, 1, 1, 0, 0, 0, 1, 1, 0, 0, 0, 1, 0, 0);
    assert(t2 * s0 == (3) * mn(p, 1, 0, 1, 1, 1, 0, 0));
    lemma_tm(p, 3, 0, 0, 1, 1, 0, 0, 0, 1, 0, 1, 0, 1, 0, 0, 0);
    assert(t2 * s1 == (3) * mn(p, 0, 1, 1, 2, 0, 0, 0));
    assert(t2 * q == (3) * mn(p, 1, 0, 1, 1, 1, 0, 0) + (3) * mn(p, 0, 1, 1, 2, 0, 0, 0));
    lemma_tm(p, -3, 0, 0, 1, 0, 0, 1, 1, 1, 1, 0, 0, 0, 1, 0, 0);
    assert(t3 * s0 == (-3) * mn(p, 1, 0, 1, 0, 1, 1, 1));
    lemma_tm(p, -3, 0, 0, 1, 0, 0, 1, 1, 1, 0, 1, 0, 1, 0, 0, 0);
    assert(t3 * s1 == (-3) * mn(p, 0, 1, 1, 1, 0, 1, 1));
    assert(t3 * q == (-3) * mn(p, 1, 0, 1, 0, 1, 1, 1) + (-3) * mn(p, 0, 1, 1, 1, 0, 1, 1));
    assert(pp3 * q == ((((3) * mn(p, 2, 0, 0, 0, 1, 1, 0) + (3) * mn(p, 1, 1, 0, 1, 0, 1, 0)) + ((1) * mn(p, 1, 1, 0, 0, 2, 0, 0) + (3) * mn(p, 1, 0, 1, 1, 1, 0, 0))) + (((-3) * mn(p, 1, 0, 1, 0, 1, 1, 1) + (1) * mn(p, 0, 2, 0, 1, 1, 0, 0)) + ((3) * mn(p, 0, 1, 1, 2, 0, 0, 0) + (-3) * mn(p, 0, 1, 1, 1, 0, 1, 1)))));
    assert(pp3 == (((3) * mn(p, 1, 0, 0, 0, 0, 1, 0) + (1) * mn(p, 0, 1, 0, 0, 1, 0, 0)) + ((3) * mn(p, 0, 0, 1, 1, 0, 0, 0) + (-3) * mn(p, 0, 0, 1, 0, 0, 1, 1))));
    assert(q == ((1) * mn(p, 1, 0, 0, 0, 1, 0, 0) + (1) * mn(p, 0, 1, 0, 1, 0, 0, 0)));
}

#[verifier::rlimit(100)]
proof fn aca_prod18(p: Pt)
    ensures
        (((1) * mn(p, 0, 1, 0, 0, 0, 1, 0) + (1) * mn(p, 0, 0, 1, 0, 1, 0, 0))) * ((((-3) * mn(p, 1, 0, 0, 1, 0, 0, 0) + (3) * mn(p, 1, 0, 0, 0, 0, 1, 1)) + ((3) * mn(p, 0, 0, 1, 1, 0, 0, 1) + (-9) * mn(p, 0, 0, 1, 0, 0, 1, 0)))) == ((((-3) * mn(p, 1, 1, 0, 1, 0, 1, 0) + (3) * mn(p, 1, 1, 0, 0, 0, 2, 1)) + ((-3) * mn(p, 1, 0, 1, 1, 1, 0, 0) + (3) * mn(p, 1, 0, 1, 0, 1, 1, 1))) + (((3) * mn(p, 0, 1, 1, 1, 0, 1, 1) + (-9) * mn(p, 0, 1, 1, 0, 0, 2, 0)) + ((3) * mn(p, 0, 0, 2, 1, 1, 0, 1) + (-9) * mn(p, 0, 0, 2, 0, 1, 1, 0)))),
{
    let c0 = (((-3) * mn(p, 1, 0, 0, 1, 0, 0, 0) + (3) * mn(p, 1, 0, 0, 0, 0, 1, 1)) + ((3) * mn(p, 0, 0, 1, 1, 0, 0, 1) + (-9) * mn(p, 0, 0, 1, 0, 0, 1, 0)));
    let cc0 = c0;
    assert(cc0 == (((-3) * mn(p, 1, 0, 0, 1, 0, 0, 0) + (3) * mn(p, 1, 0, 0, 0, 0, 1, 1)) + ((3) * mn(p, 0, 0, 1, 1, 0, 0, 1) + (-9) * mn(p, 0, 0, 1, 0, 0, 1, 0))));
    let q = ((1) * mn(p, 0, 1, 0, 0, 0, 1, 0) + (1) * mn(p, 0, 0, 1, 0, 1, 0, 0));
    aca_prod18_c0(p);
    assert(c0 * q == ((((-3) * mn(p, 1, 1, 0, 1, 0, 1, 0) + (3) * mn(p, 1, 1, 0, 0, 0, 2, 1)) + ((-3) * mn(p, 1, 0, 1, 1, 1, 0, 0) + (3) * mn(p, 1, 0, 1, 0, 1, 1, 1))) + (((3) * mn(p, 0, 1, 1, 1, 0, 1, 1) + (-9) * mn(p, 0, 1, 1, 0, 0, 2, 0)) + ((3) * mn(p, 0, 0, 2, 1, 1, 0, 1) + (-9) * mn(p, 0, 0, 2, 0, 1, 1, 0)))));
    assert(cc0 * q == ((((-3) * mn(p, 1, 1, 0, 1, 0, 1, 0) + (3) * mn(p, 1, 1, 0, 0, 0, 2, 1)) + ((-3) * mn(p, 1, 0, 1, 1, 1, 0, 0) + (3) * mn(p, 1, 0, 1, 0, 1, 1, 1))) + (((3) * mn(p, 0, 1, 1, 1, 0, 1, 1) + (-9) * mn(p, 0, 1, 1, 0, 0, 2, 0)) + ((3) * mn(p, 0, 0, 2, 1, 1, 0, 1) + (-9) * mn(p, 0, 0, 2, 0, 1, 1, 0)))));
    lemma_mul_is_commutative((((-3) * mn(p, 1, 0, 0, 1, 0, 0, 0) + (3) * mn(p, 1, 0, 0, 0, 0, 1, 1)) + ((3) * mn(p, 0, 0, 1, 1, 0, 0, 1) + (-9) * mn(p, 0, 0, 1, 0, 0, 1, 0))), ((1) * mn(p, 0, 1, 0, 0, 0, 1, 0) + (1) * mn(p, 0, 0, 1, 0, 1, 0, 0)));
}

#[verifier::rlimit(100)]
proof fn aca_prod18_c0(p: Pt)
    ensures
        ((((-3) * mn(p, 1, 0, 0, 1, 0, 0, 0) + (3) * mn(p, 1, 0, 0, 0, 0, 1, 1)) + ((3) * mn(p, 0, 0, 1, 1, 0, 0, 1) + (-9) * mn(p, 0, 0, 1, 0, 0, 1, 0)))) * (((1) * mn(p, 0, 1, 0, 0, 0, 1, 0) + (1) * mn(p, 0, 0, 1, 0, 1, 0, 0))) == ((((-3) * mn(p, 1, 1, 0, 1, 0, 1, 0) + (3) * mn(p, 1, 1, 0, 0, 0, 2, 1)) + ((-3) * mn(p, 1, 0, 1, 1, 1, 0, 0) + (3) * mn(p, 1, 0, 1, 0, 1, 1, 1))) + (((3) * mn(p, 0, 1, 1, 1, 0, 1, 1) + (-9) * mn(p, 0, 1, 1, 0, 0, 2, 0)) + ((3) * mn(p, 0, 0, 2, 1, 1, 0, 1) + (-9) * mn(p, 0, 0, 2, 0, 1, 1, 0)))),
{
    let t0 = (-3) * mn(p, 1, 0, 0, 1, 0, 0, 0);
    let t1 = (3) * mn(p, 1, 0, 0, 0, 0, 1, 1);
    let t2 = (3) * mn(p, 0, 0, 1, 1, 0, 0, 1);
    let t3 = (-9) * mn(p, 0, 0, 1, 0, 0, 1, 0);
    let s0 = (1) * mn(p, 0, 1, 0, 0, 0, 1, 0);
    let s1 = (1) * mn(p, 0, 0, 1, 0, 1, 0, 0);
    let pp0 = t0;
    let pp1 = pp0 + t1;
    let pp2 = pp1 + t2;
    let pp3 = pp2 + t3;
    let qq0 = s0;
    let qq1 = qq0 + s1;
    let q = qq1;
    lemma_mul_is_distributive_add_other_way(q, pp0, t1);
    lemma_mul_is_distributive_add_other_way(q, pp1, t2);
    lemma_mul_is_distributive_add_other_way(q, pp2, t3);
    lemma_mul_is_distributive_add(t0, qq0, s1);
    lemma_mul_is_distributive_add(t1, qq0, s1);
    lemma_mul_is_distributive_add(t2, qq0, s1);
    lemma_mul_is_distributive_add(t3, qq0, s1);
    lemma_tm(p, -3, 1, 0, 0, 1, 0, 0, 0, 1, 0, 1, 0, 0, 0, 1, 0);
    assert(t0 * s0 == (-3) * mn(p, 1, 1, 0, 1, 0, 1, 0));
    lemma_tm(p, -3, 1, 0, 0, 1, 0, 0, 0, 1, 0, 0, 1, 0, 1, 0, 0);
    assert(t0 * s1 == (-3) * mn(p, 1, 0, 1, 1, 1, 0, 0));
    assert(t0 * q == (-3) * mn(p, 1, 1, 0, 1, 0, 1, 0) + (-3) * mn(p, 1, 0, 1, 1, 1, 0, 0));
    lemma_tm(p, 3, 1, 0, 0, 0, 0, 1, 1, 1, 0, 1, 0, 0, 0, 1, 0);
    assert(t1 * s0 == (3) * mn(p, 1, 1, 0, 0, 0, 2, 1));
    lemma_tm(p, 3, 1, 0, 0, 0, 0, 1, 1, 1, 0, 0, 1, 0, 1, 0, 0);
    assert(t1 * s1 == (3) * mn(p, 1, 0, 1, 0, 1, 1, 1));
    assert(t1 * q == (3) * mn(p, 1, 1, 0, 0, 0, 2, 1) + (3) * mn(p, 1, 0, 1, 0, 1, 1, 1));
    lemma_tm(p, 3, 0, 0, 1, 1, 0, 0, 1, 1, 0, 1, 0, 0, 0, 1, 0);
    assert(t2 * s0 == (3) * mn(p, 0, 1, 1, 1, 0, 1, 1));
    lemma_tm(p, 3, 0, 0, 1, 1, 0, 0, 1, 1, 0, 0, 1, 0, 1, 0, 0);
    assert(t2 * s1 == (3) * mn(p, 0, 0, 2, 1, 1, 0, 1));
    assert(t2 * q == (3) * mn(p, 0, 1, 1, 1, 0, 1, 1) + (3) * mn(p, 0, 0, 2, 1, 1, 0, 1));
    lemma_tm(p, -9, 0, 0, 1, 0, 0, 1, 0, 1, 0, 1, 0, 0, 0, 1, 0);
    assert(t3 * s0 == (-9) * mn(p, 0, 1, 1, 0, 0, 2, 0));
    lemma_tm(p, -9, 0, 0, 1, 0, 0, 1, 0, 1, 0, 0, 1, 0, 1, 0, 0);
    assert(t3 * s1 == (-9) * mn(p, 0, 0, 2, 0, 1, 1, 0));
    assert(t3 * q == (-9) * mn(p, 0, 1, 1, 0, 0, 2, 0) + (-9) * mn(p, 0, 0, 2, 0, 1, 1, 0));
    assert(pp3 * q == ((((-3) * mn(p, 1, 1, 0, 1, 0, 1, 0) + (3) * mn(p, 1, 1, 0, 0, 0, 2, 1)) + ((-3) * mn(p, 1, 0, 1, 1, 1, 0, 0) + (3) * mn(p, 1, 0, 1, 0, 1, 1, 1))) + (((3) * mn(p, 0, 1, 1, 1, 0, 1, 1) + (-9) * mn(p, 0, 1, 1, 0, 0, 2, 0)) + ((3) * mn(p, 0, 0, 2, 1, 1, 0, 1) + (-9) * mn(p, 0, 0, 2, 0, 1, 1, 0)))));
    assert(pp3 == (((-3) * mn(p, 1, 0, 0, 1, 0, 0, 0) + (3) * mn(p, 1, 0, 0, 0, 0, 1, 1)) + ((3) * mn(p, 0, 0, 1, 1, 0, 0, 1) + (-9) * mn(p, 0, 0, 1, 0, 0, 1, 0))));
    assert(q == ((1) * mn(p, 0, 1, 0, 0, 0, 1, 0) + (1) * mn(p, 0, 0, 1, 0, 1, 0, 0)));
}

#[verifier::rlimit(100)]
proof fn aca_prod20(p: Pt)
    ensures
        ((((3) * mn(p, 1, 0, 0, 0, 0, 1, 0) + (1) * mn(p, 0, 1, 0, 0, 1, 0, 0)) + ((3) * mn(p, 0, 0, 1, 1, 0, 0, 0) + (-3) * mn(p, 0, 0, 1, 0, 0, 1, 1)))) * ((((-3) * mn(p, 1, 0, 0, 0, 0, 1, 0) + (1) * mn(p, 0, 1, 0, 0, 1, 0, 0)) + ((-3) * mn(p, 0, 0, 1, 1, 0, 0, 0) + (3) * mn(p, 0, 0, 1, 0, 0, 1, 1)))) == (((-9) * mn(p, 2, 0, 0, 0, 0, 2, 0) + ((-18) * mn(p, 1, 0, 1, 1, 0, 1, 0) + (18) * mn(p, 1, 0, 1, 0, 0, 2, 1))) + (((1) * mn(p, 0, 2, 0, 0, 2, 0, 0) + (-9) * mn(p, 0, 0, 2, 2, 0, 0, 0)) + ((18) * mn(p, 0, 0, 2, 1, 0, 1, 1) + (-9) * mn(p, 0, 0, 2, 0, 0, 2, 2)))),
{
    let c0 = (((3) * mn(p, 1, 0, 0, 0, 0, 1, 0) + (1) * mn(p, 0, 1, 0, 0, 1, 0, 0)) + ((3) * mn(p, 0, 0, 1, 1, 0, 0, 0) + (-3) * mn(p, 0, 0, 1, 0, 0, 1, 1)));
    let cc0 = c0;
    assert(cc0 == (((3) * mn(p, 1, 0, 0, 0, 0, 1, 0) + (1) * mn(p, 0, 1, 0, 0, 1, 0, 0)) + ((3) * mn(p, 0, 0, 1, 1, 0, 0, 0) + (-3) * mn(p, 0, 0, 1, 0, 0, 1, 1))));
    let q = (((-3) * mn(p, 1, 0, 0, 0, 0, 1, 0) + (1) * mn(p, 0, 1, 0, 0, 1, 0, 0)) + ((-3) * mn(p, 0, 0, 1, 1, 0, 0, 0) + (3) * mn(p, 0, 0, 1, 0, 0, 1, 1)));
    aca_prod20_c0(p);
    assert(c0 * q == (((-9) * mn(p, 2, 0, 0, 0, 0, 2, 0) + ((-18) * mn(p, 1, 0, 1, 1, 0, 1, 0) + (18) * mn(p, 1, 0, 1, 0, 0, 2, 1))) + (((1) * mn(p, 0, 2, 0, 0, 2, 0, 0) + (-9) * mn(p, 0, 0, 2, 2, 0, 0, 0)) + ((18) * mn(p, 0, 0, 2, 1, 0, 1, 1) + (-9) * mn(p, 0, 0, 2, 0, 0, 2, 2)))));
    assert(cc0 * q == (((-9) * mn(p, 2, 0, 0, 0, 0, 2, 0) + ((-18) * mn(p, 1, 0, 1, 1, 0, 1, 0) + (18) * mn(p, 1, 0, 1, 0, 0, 2, 1))) + (((1) * mn(p, 0, 2, 0, 0, 2, 0, 0) + (-9) * mn(p, 0, 0, 2, 2, 0, 0, 0)) + ((18) * mn(p, 0, 0, 2, 1, 0, 1, 1) + (-9) * mn(p, 0, 0, 2, 0, 0, 2, 2)))));
}

#[verifier::rlimit(100)]
proof fn aca_prod20_c0(p: Pt)
    ensures
        ((((3) * mn(p, 1, 0, 0, 0, 0, 1, 0) + (1) * mn(p, 0, 1, 0, 0, 1, 0, 0)) + ((3) * mn(p, 0, 0, 1, 1, 0, 0, 0) + (-3) * mn(p, 0, 0, 1, 0, 0, 1, 1)))) * ((((-3) * mn(p, 1, 0, 0, 0, 0, 1, 0) + (1) * mn(p, 0, 1, 0, 0, 1, 0, 0)) + ((-3) * mn(p, 0, 0, 1, 1, 0, 0, 0) + (3) * mn(p, 0, 0, 1, 0, 0, 1, 1)))) == (((-9) * mn(p, 2, 0, 0, 0, 0, 2, 0) + ((-18) * mn(p, 1, 0, 1, 1, 0, 1, 0) + (18) * mn(p, 1, 0, 1, 0, 0, 2, 1))) + (((1) * mn(p, 0, 2, 0, 0, 2, 0, 0) + (-9) * mn(p, 0, 0, 2, 2, 0, 0, 0)) + ((18) * mn(p, 0, 0, 2, 1, 0, 1, 1) + (-9) * mn(p, 0, 0, 2, 0, 0, 2, 2)))),
{
    let t0 = (3) * mn(p, 1, 0, 0, 0, 0, 1, 0);
    let t1 = (1) * mn(p, 0, 1, 0, 0, 1, 0, 0);
    let t2 = (3) * mn(p, 0, 0, 1, 1, 0, 0, 0);
    let t3 = (-3) * mn(p, 0, 0, 1, 0, 0, 1, 1);
    let s0 = (-3) * mn(p, 1, 0, 0, 0, 0, 1, 0);
    let s1 = (1) * mn(p, 0, 1, 0, 0, 1, 0, 0);
    let s2 = (-3) * mn(p, 0, 0, 1, 1, 0, 0, 0);
    let s3 = (3) * mn(p, 0, 0, 1, 0, 0, 1, 1);
    let pp0 = t0;
    let pp1 = pp0 + t1;
    let pp2 = pp1 + t2;
    let pp3 = pp2 + t3;
    let qq0 = s0;
    let qq1 = qq0 + s1;
    let qq2 = qq1 + s2;
    let qq3 = qq2 + s3;
    let q = qq3;
    lemma_mul_is_distributive_add_other_way(q, pp0, t1);
    lemma_mul_is_distributive_add_other_way(q, pp1, t2);
    lemma_mul_is_distributive_add_other_way(q, pp2, t3);
    lemma_mul_is_distributive_add(t0, qq0, s1);
    lemma_mul_is_distributive_add(t0, qq1, s2);
    lemma_mul_is_distributive_add(t0, qq2, s3);
    lemma_mul_is_distributive_add(t1, qq0, s1);
    lemma_mul_is_distributive_add(t1, qq1, s2);
    lemma_mul_is_distributive_add(t1, qq2, s3);
    lemma_mul_is_distributive_add(t2, qq0, s1);
    lemma_mul_is_distributive_add(t2, qq1, s2);
    lemma_mul_is_distributive_add(t2, qq2, s3);
    lemma_mul_is_distributive_add(t3, qq0, s1);
    lemma_mul_is_distributive_add(t3, qq1, s2);
    lemma_mul_is_distributive_add(t3, qq2, s3);
    lemma_tm(p, 3, 1, 0, 0, 0, 0, 1, 0, -3, 1, 0, 0, 0, 0, 1, 0);
    assert(t0 * s0 == (-9) * mn(p, 2, 0, 0, 0, 0, 2, 0));
    lemma_tm(p, 3, 1, 0, 0, 0, 0, 1, 0, 1, 0, 1, 0, 0, 1, 0, 0);
    assert(t0 * s1 == (3) * mn(p, 1, 1, 0, 0, 1, 1, 0));
    lemma_tm(p, 3, 1, 0, 0, 0, 0, 1, 0, -3, 0, 0, 1, 1, 0, 0, 0);
    assert(t0 * s2 == (-9) * mn(p, 1, 0, 1, 1, 0, 1, 0));
    lemma_tm(p, 3, 1, 0, 0, 0, 0, 1, 0, 3, 0, 0, 1, 0, 0, 1, 1);
    assert(t0 * s3 == (9) * mn(p, 1, 0, 1, 0, 0, 2, 1));
    assert(t0 * q == (-9) * mn(p, 2, 0, 0, 0, 0, 2, 0) + (3) * mn(p, 1, 1, 0, 0, 1, 1, 0) + (-9) * mn(p, 1, 0, 1, 1, 0, 1, 0) + (9) * mn(p, 1, 0, 1, 0, 0, 2, 1));
    lemma_tm(p, 1, 0, 1, 0, 0, 1, 0, 0, -3, 1, 0, 0, 0, 0, 1, 0);
    assert(t1 * s0 == (-3) * mn(p, 1, 1, 0, 0, 1, 1, 0));
    lemma_tm(p, 1, 0, 1, 0, 0, 1, 0, 0, 1, 0, 1, 0, 0, 1, 0, 0);
    assert(t1 * s1 == (1) * mn(p, 0, 2, 0, 0, 2, 0, 0));
    lemma_tm(p, 1, 0, 1, 0, 0, 1, 0, 0, -3, 0, 0, 1, 1, 0, 0, 0);
    assert(t1 * s2 == (-3) * mn(p, 0, 1, 1, 1, 1, 0, 0));
    lemma_tm(p, 1, 0, 1, 0, 0, 1, 0, 0, 3, 0, 0, 1, 0, 0, 1, 1);
    assert(t1 * s3 == (3) * mn(p, 0, 1, 1, 0, 1, 1, 1));
    assert(t1 * q == (-3) * mn(p, 1, 1, 0, 0, 1, 1, 0) + (1) * mn(p, 0, 2, 0, 0, 2, 0, 0) + (-3) * mn(p, 0, 1, 1, 1, 1, 0, 0) + (3) * mn(p, 0, 1, 1, 0, 1, 1, 1));
    lemma_tm(p, 3, 0, 0, 1, 1, 0, 0, 0, -3, 1, 0, 0, 0, 0, 1, 0);
    assert(t2 * s0 == (-9) * mn(p, 1, 0, 1, 1, 0, 1, 0));
    lemma_tm(p, 3, 0, 0, 1, 1, 0, 0, 0, 1, 0, 1, 0, 0, 1, 0, 0);
    assert(t2 * s1 == (3) * mn(p, 0, 1, 1, 1, 1, 0, 0));
    lemma_tm(p, 3, 0, 0, 1, 1, 0, 0, 0, -3, 0, 0, 1, 1, 0, 0, 0);
    assert(t2 * s2 == (-9) * mn(p, 0, 0, 2, 2, 0, 0, 0));
    lemma_tm(p, 3, 0, 0, 1, 1, 0, 0, 0, 3, 0, 0, 1, 0, 0, 1, 1);
    assert(t2 * s3 == (9) * mn(p, 0, 0, 2, 1, 0, 1, 1));
    assert(t2 * q == (-9) * mn(p, 1, 0, 1, 1, 0, 1, 0) + (3) * mn(p, 0, 1, 1, 1, 1, 0, 0) + (-9) * mn(p, 0, 0, 2, 2, 0, 0, 0) + (9) * mn(p, 0, 0, 2, 1, 0, 1, 1));
    lemma_tm(p, -3, 0, 0, 1, 0, 0, 1, 1, -3, 1, 0, 0, 0, 0, 1, 0);
    assert(t3 * s0 == (9) * mn(p, 1, 0, 1, 0, 0, 2, 1));
    lemma_tm(p, -3, 0, 0, 1, 0, 0, 1, 1, 1, 0, 1, 0, 0, 1, 0, 0);
    assert(t3 * s1 == (-3) * mn(p, 0, 1, 1, 0, 1, 1, 1));
    lemma_tm(p, -3, 0, 0, 1, 0, 0, 1, 1, -3, 0, 0, 1, 1, 0, 0, 0);
    assert(t3 * s2 == (9) * mn(p, 0, 0, 2, 1, 0, 1, 1));
    lemma_tm(p, -3, 0, 0, 1, 0, 0, 1, 1, 3, 0, 0, 1, 0, 0, 1, 1);
    assert(t3 * s3 == (-9) * mn(p, 0, 0, 2, 0, 0, 2, 2));
    assert(t3 * q == (9) * mn(p, 1, 0, 1, 0, 0, 2, 1) + (-3) * mn(p, 0, 1, 1, 0, 1, 1, 1) + (9) * mn(p, 0, 0, 2, 1, 0, 1, 1) + (-9) * mn(p, 0, 0, 2, 0, 0, 2, 2));
    assert(pp3 * q == (((-9) * mn(p, 2, 0, 0, 0, 0, 2, 0) + ((-18) * mn(p, 1, 0, 1, 1, 0, 1, 0) + (18) * mn(p, 1, 0, 1, 0, 0, 2, 1))) + (((1) * mn(p, 0, 2, 0, 0, 2, 0, 0) + (-9) * mn(p, 0, 0, 2, 2, 0, 0, 0)) + ((18) * mn(p, 0, 0, 2, 1, 0, 1, 1) + (-9) * mn(p, 0, 0, 2, 0, 0, 2, 2)))));
    assert(pp3 == (((3) * mn(p, 1, 0, 0, 0, 0, 1, 0) + (1) * mn(p, 0, 1, 0, 0, 1, 0, 0)) + ((3) * mn(p, 0, 0, 1, 1, 0, 0, 0) + (-3) * mn(p, 0, 0, 1, 0, 0, 1, 1))));
    assert(q == (((-3) * mn(p, 1, 0, 0, 0, 0, 1, 0) + (1) * mn(p, 0, 1, 0, 0, 1, 0, 0)) + ((-3) * mn(p, 0, 0, 1, 1, 0, 0, 0) + (3) * mn(p, 0, 0, 1, 0, 0, 1, 1))));
}

#[verifier::rlimit(100)]
proof fn aca_prod22(p: Pt)
    ensures
        (((3) * mn(p, 1, 0, 0, 1, 0, 0, 0) + (-3) * mn(p, 0, 0, 1, 0, 0, 1, 0))) * ((((-3) * mn(p, 1, 0, 0, 1, 0, 0, 0) + (3) * mn(p, 1, 0, 0, 0, 0, 1, 1)) + ((3) * mn(p, 0, 0, 1, 1, 0, 0, 1) + (-9) * mn(p, 0, 0, 1, 0, 0, 1, 0)))) == (((-9) * mn(p, 2, 0, 0, 2, 0, 0, 0) + ((9) * mn(p, 2, 0, 0, 1, 0, 1, 1) + (9) * mn(p, 1, 0, 1, 2, 0, 0, 1))) + (((-18) * mn(p, 1, 0, 1, 1, 0, 1, 0) + (-9) * mn(p, 1, 0, 1, 0, 0, 2, 1)) + ((-9) * mn(p, 0, 0, 2, 1, 0, 1, 1) + (27) * mn(p, 0, 0, 2, 0, 0, 2, 0)))),
{
    let c0 = (((-3) * mn(p, 1, 0, 0, 1, 0, 0, 0) + (3) * mn(p, 1, 0, 0, 0, 0, 1, 1)) + ((3) * mn(p, 0, 0, 1, 1, 0, 0, 1) + (-9) * mn(p, 0, 0, 1, 0, 0, 1, 0)));
    let cc0 = c0;
    assert(cc0 == (((-3) * mn(p, 1, 0, 0, 1, 0, 0, 0) + (3) * mn(p, 1, 0, 0, 0, 0, 1, 1)) + ((3) * mn(p, 0, 0, 1, 1, 0, 0, 1) + (-9) * mn(p, 0, 0, 1, 0, 0, 1, 0))));
    let q = ((3) * mn(p, 1, 0, 0, 1, 0, 0, 0) + (-3) * mn(p, 0, 0, 1, 0, 0, 1, 0));
    aca_prod22_c0(p);
    assert(c0 * q == (((-9) * mn(p, 2, 0, 0, 2, 0, 0, 0) + ((9) * mn(p, 2, 0, 0, 1, 0, 1, 1) + (9) * mn(p, 1, 0, 1, 2, 0, 0, 1))) + (((-18) * mn(p, 1, 0, 1, 1, 0, 1, 0) + (-9) * mn(p, 1, 0, 1, 0, 0, 2, 1)) + ((-9) * mn(p, 0, 0, 2, 1, 0, 1, 1) + (27) * mn(p, 0, 0, 2, 0, 0, 2, 0)))));
    assert(cc0 * q == (((-9) * mn(p, 2, 0, 0, 2, 0, 0, 0) + ((9) * mn(p, 2, 0, 0, 1, 0, 1, 1) + (9) * mn(p, 1, 0, 1, 2, 0, 0, 1))) + (((-18) * mn(p, 1, 0, 1, 1, 0, 1, 0) + (-9) * mn(p, 1, 0, 1, 0, 0, 2, 1)) + ((-9) * mn(p, 0, 0, 2, 1, 0, 1, 1) + (27) * mn(p, 0, 0, 2, 0, 0, 2, 0)))));
    lemma_mul_is_commutative((((-3) * mn(p, 1, 0, 0, 1, 0, 0, 0) + (3) * mn(p, 1, 0, 0, 0, 0, 1, 1)) + ((3) * mn(p, 0, 0, 1, 1, 0, 0, 1) + (-9) * mn(p, 0, 0, 1, 0, 0, 1, 0))), ((3) * mn(p, 1, 0, 0, 1, 0, 0, 0) + (-3) * mn(p, 0, 0, 1, 0, 0, 1, 0)));
}

#[verifier::rlimit(100)]
proof fn aca_prod22_c0(p: Pt)
    ensures
        ((((-3) * mn(p, 1, 0, 0, 1, 0, 0, 0) + (3) * mn(p, 1, 0, 0, 0, 0, 1, 1)) + ((3) * mn(p, 0, 0, 1, 1, 0, 0, 1) + (-9) * mn(p, 0, 0, 1, 0, 0, 1, 0)))) * (((3) * mn(p, 1, 0, 0, 1, 0, 0, 0) + (-3) * mn(p, 0, 0, 1, 0, 0, 1, 0))) == (((-9) * mn(p, 2, 0, 0, 2, 0, 0, 0) + ((9) * mn(p, 2, 0, 0, 1, 0, 1, 1) + (9) * mn(p, 1, 0, 1, 2, 0, 0, 1))) + (((-18) * mn(p, 1, 0, 1, 1, 0, 1, 0) + (-9) * mn(p, 1, 0, 1, 0, 0, 2, 1)) + ((-9) * mn(p, 0, 0, 2, 1, 0, 1, 1) + (27) * mn(p, 0, 0, 2, 0, 0, 2, 0)))),
{
    let t0 = (-3) * mn(p, 1, 0, 0, 1, 0, 0, 0);
    let t1 = (3) * mn(p, 1, 0, 0, 0, 0, 1, 1);
    let t2 = (3) * mn(p, 0, 0, 1, 1, 0, 0, 1);
    let t3 = (-9) * mn(p, 0, 0, 1, 0, 0, 1, 0);
    let s0 = (3) * mn(p, 1, 0, 0, 1, 0, 0, 0);
    let s1 = (-3) * mn(p, 0, 0, 1, 0, 0, 1, 0);
    let pp0 = t0;
    let pp1 = pp0 + t1;
    let pp2 = pp1 + t2;
    let pp3 = pp2 + t3;
    let qq0 = s0;
    let qq1 = qq0 + s1;
    let q = qq1;
    lemma_mul_is_distributive_add_other_way(q, pp0, t1);
    lemma_mul_is_distributive_add_other_way(q, pp1, t2);
    lemma_mul_is_distributive_add_other_way(q, pp2, t3);
    lemma_mul_is_distributive_add(t0, qq0, s1);
    lemma_mul_is_distributive_add(t1, qq0, s1);
    lemma_mul_is_distributive_add(t2, qq0, s1);
    lemma_mul_is_distributive_add(t3, qq0, s1);
    lemma_tm(p, -3, 1, 0, 0, 1, 0, 0, 0, 3, 1, 0, 0, 1, 0, 0, 0);
    assert(t0 * s0 == (-9) * mn(p, 2, 0, 0, 2, 0, 0, 0));
    lemma_tm(p, -3, 1, 0, 0, 1, 0, 0, 0, -3, 0, 0, 1, 0, 0, 1, 0);
    assert(t0 * s1 == (9) * mn(p, 1, 0, 1, 1, 0, 1, 0));
    assert(t0 * q == (-9) * mn(p, 2, 0, 0, 2, 0, 0, 0) + (9) * mn(p, 1, 0, 1, 1, 0, 1, 0));
    lemma_tm(p, 3, 1, 0, 0, 0, 0, 1, 1, 3, 1, 0, 0, 1, 0, 0, 0);
    assert(t1 * s0 == (9) * mn(p, 2, 0, 0, 1, 0, 1, 1));
    lemma_tm(p, 3, 1, 0, 0, 0, 0, 1, 1, -3, 0, 0, 1, 0, 0, 1, 0);
    assert(t1 * s1 == (-9) * mn(p, 1, 0, 1, 0, 0, 2, 1));
    assert(t1 * q == (9) * mn(p, 2, 0, 0, 1, 0, 1, 1) + (-9) * mn(p, 1, 0, 1, 0, 0, 2, 1));
    lemma_tm(p, 3, 0, 0, 1, 1, 0, 0, 1, 3, 1, 0, 0, 1, 0, 0, 0);
    assert(t2 * s0 == (9) * mn(p, 1, 0, 1, 2, 0, 0, 1));
    lemma_tm(p, 3, 0, 0, 1, 1, 0, 0, 1, -3, 0, 0, 1, 0, 0, 1, 0);
    assert(t2 * s1 == (-9) * mn(p, 0, 0, 2, 1, 0, 1, 1));
    assert(t2 * q == (9) * mn(p, 1, 0, 1, 2, 0, 0, 1) + (-9) * mn(p, 0, 0, 2, 1, 0, 1, 1));
    lemma_tm(p, -9, 0, 0, 1, 0, 0, 1, 0, 3, 1, 0, 0, 1, 0, 0, 0);
    assert(t3 * s0 == (-27) * mn(p, 1, 0, 1, 1, 0, 1, 0));
    lemma_tm(p, -9, 0, 0, 1, 0, 0, 1, 0, -3, 0, 0, 1, 0, 0, 1, 0);
    assert(t3 * s1 == (27) * mn(p, 0, 0, 2, 0, 0, 2, 0));
    assert(t3 * q == (-27) * mn(p, 1, 0, 1, 1, 0, 1, 0) + (27) * mn(p, 0, 0, 2, 0, 0, 2, 0));
    assert(pp3 * q == (((-9) * mn(p, 2, 0, 0, 2, 0, 0, 0) + ((9) * mn(p, 2, 0, 0, 1, 0, 1, 1) + (9) * mn(p, 1, 0, 1, 2, 0, 0, 1))) + (((-18) * mn(p, 1, 0, 1, 1, 0, 1, 0) + (-9) * mn(p, 1, 0, 1, 0, 0, 2, 1)) + ((-9) * mn(p, 0, 0, 2, 1, 0, 1, 1) + (27) * mn(p, 0, 0, 2, 0, 0, 2, 0)))));
    assert(pp3 == (((-3) * mn(p, 1, 0, 0, 1, 0, 0, 0) + (3) * mn(p, 1, 0, 0, 0, 0, 1, 1)) + ((3) * mn(p, 0, 0, 1, 1, 0, 0, 1) + (-9) * mn(p, 0, 0, 1, 0, 0, 1, 0))));
    assert(q == ((3) * mn(p, 1, 0, 0, 1, 0, 0, 0) + (-3) * mn(p, 0, 0, 1, 0, 0, 1, 0)));
}

#[verifier::rlimit(100)]
proof fn aca_prod24(p: Pt)
    ensures
        ((((-3) * mn(p, 1, 0, 0, 0, 0, 1, 0) + (1) * mn(p, 0, 1, 0, 0, 1, 0, 0)) + ((-3) * mn(p, 0, 0, 1, 1, 0, 0, 0) + (3) * mn(p, 0, 0, 1, 0, 0, 1, 1)))) * (((1) * mn(p, 0, 1, 0, 0, 0, 1, 0) + (1) * mn(p, 0, 0, 1, 0, 1, 0, 0))) == ((((-3) * mn(p, 1, 1, 0, 0, 0, 2, 0) + (-3) * mn(p, 1, 0, 1, 0, 1, 1, 0)) + ((1) * mn(p, 0, 2, 0, 0, 1, 1, 0) + (-3) * mn(p, 0, 1, 1, 1, 0, 1, 0))) + (((1) * mn(p, 0, 1, 1, 0, 2, 0, 0) + (3) * mn(p, 0, 1, 1, 0, 0, 2, 1)) + ((-3) * mn(p, 0, 0, 2, 1, 1, 0, 0) + (3) * mn(p, 0, 0, 2, 0, 1, 1, 1)))),
{
    let c0 = (((-3) * mn(p, 1, 0, 0, 0, 0, 1, 0) + (1) * mn(p, 0, 1, 0, 0, 1, 0, 0)) + ((-3) * mn(p, 0, 0, 1, 1, 0, 0, 0) + (3) * mn(p, 0, 0, 1, 0, 0, 1, 1)));
    let cc0 = c0;
    assert(cc0 == (((-3) * mn(p, 1, 0, 0, 0, 0, 1, 0) + (1) * mn(p, 0, 1, 0, 0, 1, 0, 0)) + ((-3) * mn(p, 0, 0, 1, 1, 0, 0, 0) + (3) * mn(p, 0, 0, 1, 0, 0, 1, 1))));
    let q = ((1) * mn(p, 0, 1, 0, 0, 0, 1, 0) + (1) * mn(p, 0, 0, 1, 0, 1, 0, 0));
    aca_prod24_c0(p);
    assert(c0 * q == ((((-3) * mn(p, 1, 1, 0, 0, 0, 2, 0) + (-3) * mn(p, 1, 0, 1, 0, 1, 1, 0)) + ((1) * mn(p, 0, 2, 0, 0, 1, 1, 0) + (-3) * mn(p, 0, 1, 1, 1, 0, 1, 0))) + (((1) * mn(p, 0, 1, 1, 0, 2, 0, 0) + (3) * mn(p, 0, 1, 1, 0, 0, 2, 1)) + ((-3) * mn(p, 0, 0, 2, 1, 1, 0, 0) + (3) * mn(p, 0, 0, 2, 0, 1, 1, 1)))));
    assert(cc0 * q == ((((-3) * mn(p, 1, 1, 0, 0, 0, 2, 0) + (-3) * mn(p, 1, 0, 1, 0, 1, 1, 0)) + ((1) * mn(p, 0, 2, 0, 0, 1, 1, 0) + (-3) * mn(p, 0, 1, 1, 1, 0, 1, 0))) + (((1) * mn(p, 0, 1, 1, 0, 2, 0, 0) + (3) * mn(p, 0, 1, 1, 0, 0, 2, 1)) + ((-3) * mn(p, 0, 0, 2, 1, 1, 0, 0) + (3) * mn(p, 0, 0, 2, 0, 1, 1, 1)))));
}

#[verifier::rlimit(100)]
proof fn aca_prod24_c0(p: Pt)
    ensures
        ((((-3) * mn(p, 1, 0, 0, 0, 0, 1, 0) + (1) * mn(p, 0, 1, 0, 0, 1, 0, 0)) + ((-3) * mn(p, 0, 0, 1, 1, 0, 0, 0) + (3) * mn(p, 0, 0, 1, 0, 0, 1, 1)))) * (((1) * mn(p, 0, 1, 0, 0, 0, 1, 0) + (1) * mn(p, 0, 0, 1, 0, 1, 0, 0))) == ((((-3) * mn(p, 1, 1, 0, 0, 0, 2, 0) + (-3) * mn(p, 1, 0, 1, 0, 1, 1, 0)) + ((1) * mn(p, 0, 2, 0, 0, 1, 1, 0) + (-3) * mn(p, 0, 1, 1, 1, 0, 1, 0))) + (((1) * mn(p, 0, 1, 1, 0, 2, 0, 0) + (3) * mn(p, 0, 1, 1, 0, 0, 2, 1)) + ((-3) * mn(p, 0, 0, 2, 1, 1, 0, 0) + (3) * mn(p, 0, 0, 2, 0, 1, 1, 1)))),
{
    let t0 = (-3) * mn(p, 1, 0, 0, 0, 0, 1, 0);
    let t1 = (1) * mn(p, 0, 1, 0, 0, 1, 0, 0);
    let t2 = (-3) * mn(p, 0, 0, 1, 1, 0, 0, 0);
    let t3 = (3) * mn(p, 0, 0, 1, 0, 0, 1, 1);
    let s0 = (1) * mn(p, 0, 1, 0, 0, 0, 1, 0);
    let s1 = (1) * mn(p, 0, 0, 1, 0, 1, 0, 0);
    let pp0 = t0;
    let pp1 = pp0 + t1;
    let pp2 = pp1 + t2;
    let pp3 = pp2 + t3;
    let qq0 = s0;
    let qq1 = qq0 + s1;
    let q = qq1;
    lemma_mul_is_distributive_add_other_way(q, pp0, t1);
    lemma_mul_is_distributive_add_other_way(q, pp1, t2);
    lemma_mul_is_distributive_add_other_way(q, pp2, t3);
    lemma_mul_is_distributive_add(t0, qq0, s1);
    lemma_mul_is_distributive_add(t1, qq0, s1);
    lemma_mul_is_distributive_add(t2, qq0, s1);
    lemma_mul_is_distributive_add(t3, qq0, s1);
    lemma_tm(p, -3, 1, 0, 0, 0, 0, 1, 0, 1, 0, 1, 0, 0, 0, 1, 0);
    assert(t0 * s0 == (-3) * mn(p, 1, 1, 0, 0, 0, 2, 0));
    lemma_tm(p, -3, 1, 0, 0, 0, 0, 1, 0, 1, 0, 0, 1, 0, 1, 0, 0);
    assert(t0 * s1 == (-3) * mn(p, 1, 0, 1, 0, 1, 1, 0));
    assert(t0 * q == (-3) * mn(p, 1, 1, 0, 0, 0, 2, 0) + (-3) * mn(p, 1, 0, 1, 0, 1, 1, 0));
    lemma_tm(p, 1, 0, 1, 0, 0, 1, 0, 0, 1, 0, 1, 0, 0, 0, 1, 0);
    assert(t1 * s0 == (1) * mn(p, 0, 2, 0, 0, 1, 1, 0));
    lemma_tm(p, 1, 0, 1, 0, 0, 1, 0, 0, 1, 0, 0, 1, 0, 1, 0, 0);
    assert(t1 * s1 == (1) * mn(p, 0, 1, 1, 0, 2, 0, 0));
    assert(t1 * q == (1) * mn(p, 0, 2, 0, 0, 1, 1, 0) + (1) * mn(p, 0, 1, 1, 0, 2, 0, 0));
    lemma_tm(p, -3, 0, 0, 1, 1, 0, 0, 0, 1, 0, 1, 0, 0, 0, 1, 0);
    assert(t2 * s0 == (-3) * mn(p, 0, 1, 1, 1, 0, 1, 0));
    lemma_tm(p, -3, 0, 0, 1, 1, 0, 0, 0, 1, 0, 0, 1, 0, 1, 0, 0);
    assert(t2 * s1 == (-3) * mn(p, 0, 0, 2, 1, 1, 0, 0));
    assert(t2 * q == (-3) * mn(p, 0, 1, 1, 1, 0, 1, 0) + (-3) * mn(p, 0, 0, 2, 1, 1, 0, 0));
    lemma_tm(p, 3, 0, 0, 1, 0, 0, 1, 1, 1, 0, 1, 0, 0, 0, 1, 0);
    assert(t3 * s0 == (3) * mn(p, 0, 1, 1, 0, 0, 2, 1));
    lemma_tm(p, 3, 0, 0, 1, 0, 0, 1, 1, 1, 0, 0, 1, 0, 1, 0, 0);
    assert(t3 * s1 == (3) * mn(p, 0, 0, 2, 0, 1, 1, 1));
    assert(t3 * q == (3) * mn(p, 0, 1, 1, 0, 0, 2, 1) + (3) * mn(p, 0, 0, 2, 0, 1, 1, 1));
    assert(pp3 * q == ((((-3) * mn(p, 1, 1, 0, 0, 0, 2, 0) + (-3) * mn(p, 1, 0, 1, 0, 1, 1, 0)) + ((1) * mn(p, 0, 2, 0, 0, 1, 1, 0) + (-3) * mn(p, 0, 1, 1, 1, 0, 1, 0))) + (((1) * mn(p, 0, 1, 1, 0, 2, 0, 0) + (3) * mn(p, 0, 1, 1, 0, 0, 2, 1)) + ((-3) * mn(p, 0, 0, 2, 1, 1, 0, 0) + (3) * mn(p, 0, 0, 2, 0, 1, 1, 1)))));
    assert(pp3 == (((-3) * mn(p, 1, 0, 0, 0, 0, 1, 0) + (1) * mn(p, 0, 1, 0, 0, 1, 0, 0)) + ((-3) * mn(p, 0, 0, 1, 1, 0, 0, 0) + (3) * mn(p, 0, 0, 1, 0, 0, 1, 1))));
    assert(q == ((1) * mn(p, 0, 1, 0, 0, 0, 1, 0) + (1) * mn(p, 0, 0, 1, 0, 1, 0, 0)));
}

#[verifier::rlimit(100)]
proof fn aca_prod26(p: Pt)
    ensures
        (((1) * mn(p, 1, 0, 0, 0, 1, 0, 0) + (1) * mn(p, 0, 1, 0, 1, 0, 0, 0))) * (((3) * mn(p, 1, 0, 0, 1, 0, 0, 0) + (-3) * mn(p, 0, 0, 1, 0, 0, 1, 0))) == (((3) * mn(p, 2, 0, 0, 1, 1, 0, 0) + (3) * mn(p, 1, 1, 0, 2, 0, 0, 0)) + ((-3) * mn(p, 1, 0, 1, 0, 1, 1, 0) + (-3) * mn(p, 0, 1, 1, 1, 0, 1, 0))),
{
    let c0 = ((1) * mn(p, 1, 0, 0, 0, 1, 0, 0) + (1) * mn(p, 0, 1, 0, 1, 0, 0, 0));
    let cc0 = c0;
    assert(cc0 == ((1) * mn(p, 1, 0, 0, 0, 1, 0, 0) + (1) * mn(p, 0, 1, 0, 1, 0, 0, 0)));
    let q = ((3) * mn(p, 1, 0, 0, 1, 0, 0, 0) + (-3) * mn(p, 0, 0, 1, 0, 0, 1, 0));
    aca_prod26_c0(p);
    assert(c0 * q == (((3) * mn(p, 2, 0, 0, 1, 1, 0, 0) + (3) * mn(p, 1, 1, 0, 2, 0, 0, 0)) + ((-3) * mn(p, 1, 0, 1, 0, 1, 1, 0) + (-3) * mn(p, 0, 1, 1, 1, 0, 1, 0))));
    assert(cc0 * q == (((3) * mn(p, 2, 0, 0, 1, 1, 0, 0) + (3) * mn(p, 1, 1, 0, 2, 0, 0, 0)) + ((-3) * mn(p, 1, 0, 1, 0, 1, 1, 0) + (-3) * mn(p, 0, 1, 1, 1, 0, 1, 0))));
}

#[verifier::rlimit(100)]
proof fn aca_prod26_c0(p: Pt)
    ensures
        (((1) * mn(p, 1, 0, 0, 0, 1, 0, 0) + (1) * mn(p, 0, 1, 0, 1, 0, 0, 0))) * (((3) * mn(p, 1, 0, 0, 1, 0, 0, 0) + (-3) * mn(p, 0, 0, 1, 0, 0, 1, 0))) == (((3) * mn(p, 2, 0, 0, 1, 1, 0, 0) + (3) * mn(p, 1, 1, 0, 2, 0, 0, 0)) + ((-3) * mn(p, 1, 0, 1, 0, 1, 1, 0) + (-3) * mn(p, 0, 1, 1, 1, 0, 1, 0))),
{
    let t0 = (1) * mn(p, 1, 0, 0, 0, 1, 0, 0);
    let t1 = (1) * mn(p, 0, 1, 0, 1, 0, 0, 0);
    let s0 = (3) * mn(p, 1, 0, 0, 1, 0, 0, 0);
    let s1 = (-3) * mn(p, 0, 0, 1, 0, 0, 1, 0);
    let pp0 = t0;
    let pp1 = pp0 + t1;
    let qq0 = s0;
    let qq1 = qq0 + s1;
    let q = qq1;
    lemma_mul_is_distributive_add_other_way(q, pp0, t1);
    lemma_mul_is_distributive_add(t0, qq0, s1);
    lemma_mul_is_distributive_add(t1, qq0, s1);
    lemma_tm(p, 1, 1, 0, 0, 0, 1, 0, 0, 3, 1, 0, 0, 1, 0, 0, 0);
    assert(t0 * s0 == (3) * mn(p, 2, 0, 0, 1, 1, 0, 0));
    lemma_tm(p, 1, 1, 0, 0, 0, 1, 0, 0, -3, 0, 0, 1, 0, 0, 1, 0);
    assert(t0 * s1 == (-3) * mn(p, 1, 0, 1, 0, 1, 1, 0));
    assert(t0 * q == (3) * mn(p, 2, 0, 0, 1, 1, 0, 0) + (-3) * mn(p, 1, 0, 1, 0, 1, 1, 0));
    lemma_tm(p, 1, 0, 1, 0, 1, 0, 0, 0, 3, 1, 0, 0, 1, 0, 0, 0);
    assert(t1 * s0 == (3) * mn(p, 1, 1, 0, 2, 0, 0, 0));
    lemma_tm(p, 1, 0, 1, 0, 1, 0, 0, 0, -3, 0, 0, 1, 0, 0, 1, 0);
    assert(t1 * s1 == (-3) * mn(p, 0, 1, 1, 1, 0, 1, 0));
    assert(t1 * q == (3) * mn(p, 1, 1, 0, 2, 0, 0, 0) + (-3) * mn(p, 0, 1, 1, 1, 0, 1, 0));
    assert(pp1 * q == (((3) * mn(p, 2, 0, 0, 1, 1, 0, 0) + (3) * mn(p, 1, 1, 0, 2, 0, 0, 0)) + ((-3) * mn(p, 1, 0, 1, 0, 1, 1, 0) + (-3) * mn(p, 0, 1, 1, 1, 0, 1, 0))));
    assert(pp1 == ((1) * mn(p, 1, 0, 0, 0, 1, 0, 0) + (1) * mn(p, 0, 1, 0, 1, 0, 0, 0)));
    assert(q == ((3) * mn(p, 1, 0, 0, 1, 0, 0, 0) + (-3) * mn(p, 0, 0, 1, 0, 0, 1, 0)));
}

#[verifier::rlimit(100)]
proof fn acb_prod0(p: Pt)
    ensures
        (((((-9) * mn(p, 2, 0, 0, 2, 0, 0, 0) + (9) * mn(p, 2, 0, 0, 1, 0, 1, 1)) + ((-9) * mn(p, 2, 0, 0, 0, 0, 2, 0) + ((9) * mn(p, 1, 0, 1, 2, 0, 0, 1) + (-36) * mn(p, 1, 0, 1, 1, 0, 1, 0)))) + (((9) * mn(p, 1, 0, 1, 0, 0, 2, 1) + ((1) * mn(p, 0, 2, 0, 0, 2, 0, 0) + (-9) * mn(p, 0, 0, 2, 2, 0, 0, 0))) + ((9) * mn(p, 0, 0, 2, 1, 0, 1, 1) + ((-9) * mn(p, 0, 0, 2, 0, 0, 2, 2) + (27) * mn(p, 0, 0, 2, 0, 0, 2, 0)))))) * (((((-9) * mn(p, 2, 0, 0, 2, 0, 0, 0) + (9) * mn(p, 2, 0, 0, 1, 0, 1, 1)) + ((-9) * mn(p, 2, 0, 0, 0, 0, 2, 0) + ((9) * mn(p, 1, 0, 1, 2, 0, 0, 1) + (-36) * mn(p, 1, 0, 1, 1, 0, 1, 0)))) + (((9) * mn(p, 1, 0, 1, 0, 0, 2, 1) + ((1) * mn(p, 0, 2, 0, 0, 2, 0, 0) + (-9) * mn(p, 0, 0, 2, 2, 0, 0, 0))) + ((9) * mn(p, 0, 0, 2, 1, 0, 1, 1) + ((-9) * mn(p, 0, 0, 2, 0, 0, 2, 2) + (27) * mn(p, 0, 0, 2, 0, 0, 2, 0)))))) == ((((((81) * mn(p, 4, 0, 0, 4, 0, 0, 0) + ((-162) * mn(p, 4, 0, 0, 3, 0, 1, 1) + (81) * mn(p, 4, 0, 0, 2, 0, 2, 2))) + ((162) * mn(p, 4, 0, 0, 2, 0, 2, 0) + ((-162) * mn(p, 4, 0, 0, 1, 0, 3, 1) + (81) * mn(p, 4, 0, 0, 0, 0, 4, 0)))) + (((-162) * mn(p, 3, 0, 1, 4, 0, 0, 1) + ((162) * mn(p, 3, 0, 1, 3, 0, 1, 2) + (648) * mn(p, 3, 0, 1, 3, 0, 1, 0))) + ((-972) * mn(p, 3, 0, 1, 2, 0, 2, 1) + ((162) * mn(p, 3, 0, 1, 1, 0, 3, 2) + (648) * mn(p, 3, 0, 1, 1, 0, 3, 0))))) + ((((-162) * mn(p, 3, 0, 1, 0, 0, 4, 1) + ((-18) * mn(p, 2, 2, 0, 2, 2, 0, 0) + (18) * mn(p, 2, 2, 0, 1, 2, 1, 1))) + ((-18) * mn(p, 2, 2, 0, 0, 2, 2, 0) + ((81) * mn(p, 2, 0, 2, 4, 0, 0, 2) + (162) * mn(p, 2, 0, 2, 4, 0, 0, 0)))) + (((-972) * mn(p, 2, 0, 2, 3, 0, 1, 1) + ((486) * mn(p, 2, 0, 2, 2, 0, 2, 2) + (972) * mn(p, 2, 0, 2, 2, 0, 2, 0))) + (((-162) * mn(p, 2, 0, 2, 1, 0, 3, 3) + (-324) * mn(p, 2, 0, 2, 1, 0, 3, 1)) + ((243) * mn(p, 2, 0, 2, 0, 0, 4, 2) + (-486) * mn(p, 2, 0, 2, 0, 0, 4, 0)))))) + (((((18) * mn(p, 1, 2, 1, 2, 2, 0, 1) + ((-72) * mn(p, 1, 2, 1, 1, 2, 1, 0) + (18) * mn(p, 1, 2, 1, 0, 2, 2, 1))) + ((-162) * mn(p, 1, 0, 3, 4, 0, 0, 1) + ((162) * mn(p, 1, 0, 3, 3, 0, 1, 2) + (648) * mn(p, 1, 0, 3, 3, 0, 1, 0)))) + (((-162) * mn(p, 1, 0, 3, 2, 0, 2, 3) + ((-324) * mn(p, 1, 0, 3, 2, 0, 2, 1) + (810) * mn(p, 1, 0, 3, 1, 0, 3, 2))) + (((-1944) * mn(p, 1, 0, 3, 1, 0, 3, 0) + (-162) * mn(p, 1, 0, 3, 0, 0, 4, 3)) + ((486) * mn(p, 1, 0, 3, 0, 0, 4, 1) + (1) * mn(p, 0, 4, 0, 0, 4, 0, 0))))) + ((((-18) * mn(p, 0, 2, 2, 2, 2, 0, 0) + ((18) * mn(p, 0, 2, 2, 1, 2, 1, 1) + (-18) * mn(p, 0, 2, 2, 0, 2, 2, 2))) + ((54) * mn(p, 0, 2, 2, 0, 2, 2, 0) + ((81) * mn(p, 0, 0, 4, 4, 0, 0, 0) + (-162) * mn(p, 0, 0, 4, 3, 0, 1, 1)))) + (((243) * mn(p, 0, 0, 4, 2, 0, 2, 2) + ((-486) * mn(p, 0, 0, 4, 2, 0, 2, 0) + (-162) * mn(p, 0, 0, 4, 1, 0, 3, 3))) + (((486) * mn(p, 0, 0, 4, 1, 0, 3, 1) + (81) * mn(p, 0, 0, 4, 0, 0, 4, 4)) + ((-486) * mn(p, 0, 0, 4, 0, 0, 4, 2) + (729) * mn(p, 0, 0, 4, 0, 0, 4, 0))))))),
{
    let c0 = ((((-9) * mn(p, 2, 0, 0, 2, 0, 0, 0) + (9) * mn(p, 2, 0, 0, 1, 0, 1, 1)) + ((-9) * mn(p, 2, 0, 0, 0, 0, 2, 0) + ((9) * mn(p, 1, 0, 1, 2, 0, 0, 1) + (-36) * mn(p, 1, 0, 1, 1, 0, 1, 0)))) + (((9) * mn(p, 1, 0, 1, 0, 0, 2, 1) + ((1) * mn(p, 0, 2, 0, 0, 2, 0, 0) + (-9) * mn(p, 0, 0, 2, 2, 0, 0, 0))) + ((9) * mn(p, 0, 0, 2, 1, 0, 1, 1) + ((-9) * mn(p, 0, 0, 2, 0, 0, 2, 2) + (27) * mn(p, 0, 0, 2, 0, 0, 2, 0)))));
    let cc0 = c0;
    assert(cc0 == ((((-9) * mn(p, 2, 0, 0, 2, 0, 0, 0) + (9) * mn(p, 2, 0, 0, 1, 0, 1, 1)) + ((-9) * mn(p, 2, 0, 0, 0, 0, 2, 0) + ((9) * mn(p, 1, 0, 1, 2, 0, 0, 1) + (-36) * mn(p, 1, 0, 1, 1, 0, 1, 0)))) + (((9) * mn(p, 1, 0, 1, 0, 0, 2, 1) + ((1) * mn(p, 0, 2, 0, 0, 2, 0, 0) + (-9) * mn(p, 0, 0, 2, 2, 0, 0, 0))) + ((9) * mn(p, 0, 0, 2, 1, 0, 1, 1) + ((-9) * mn(p, 0, 0, 2, 0, 0, 2, 2) + (27) * mn(p, 0, 0, 2, 0, 0, 2, 0))))));
    let q = ((((-9) * mn(p, 2, 0, 0, 2, 0, 0, 0) + (9) * mn(p, 2, 0, 0, 1, 0, 1, 1)) + ((-9) * mn(p, 2, 0, 0, 0, 0, 2, 0) + ((9) * mn(p, 1, 0, 1, 2, 0, 0, 1) + (-36) * mn(p, 1, 0, 1, 1, 0, 1, 0)))) + (((9) * mn(p, 1, 0, 1, 0, 0, 2, 1) + ((1) * mn(p, 0, 2, 0, 0, 2, 0, 0) + (-9) * mn(p, 0, 0, 2, 2, 0, 0, 0))) + ((9) * mn(p, 0, 0, 2, 1, 0, 1, 1) + ((-9) * mn(p, 0, 0, 2, 0, 0, 2, 2) + (27) * mn(p, 0, 0, 2, 0, 0, 2, 0)))));
    acb_prod0_c0(p);
    assert(c0 * q == ((((((81) * mn(p, 4, 0, 0, 4, 0, 0, 0) + ((-162) * mn(p, 4, 0, 0, 3, 0, 1, 1) + (81) * mn(p, 4, 0, 0, 2, 0, 2, 2))) + ((162) * mn(p, 4, 0, 0, 2, 0, 2, 0) + ((-162) * mn(p, 4, 0, 0, 1, 0, 3, 1) + (81) * mn(p, 4, 0, 0, 0, 0, 4, 0)))) + (((-162) * mn(p, 3, 0, 1, 4, 0, 0, 1) + ((162) * mn(p, 3, 0, 1, 3, 0, 1, 2) + (648) * mn(p, 3, 0, 1, 3, 0, 1, 0))) + ((-972) * mn(p, 3, 0, 1, 2, 0, 2, 1) + ((162) * mn(p, 3, 0, 1, 1, 0, 3, 2) + (648) * mn(p, 3, 0, 1, 1, 0, 3, 0))))) + ((((-162) * mn(p, 3, 0, 1, 0, 0, 4, 1) + ((-18) * mn(p, 2, 2, 0, 2, 2, 0, 0) + (18) * mn(p, 2, 2, 0, 1, 2, 1, 1))) + ((-18) * mn(p, 2, 2, 0, 0, 2, 2, 0) + ((81) * mn(p, 2, 0, 2, 4, 0, 0, 2) + (162) * mn(p, 2, 0, 2, 4, 0, 0, 0)))) + (((-972) * mn(p, 2, 0, 2, 3, 0, 1, 1) + ((486) * mn(p, 2, 0, 2, 2, 0, 2, 2) + (972) * mn(p, 2, 0, 2, 2, 0, 2, 0))) + (((-162) * mn(p, 2, 0, 2, 1, 0, 3, 3) + (-324) * mn(p, 2, 0, 2, 1, 0, 3, 1)) + ((243) * mn(p, 2, 0, 2, 0, 0, 4, 2) + (-486) * mn(p, 2, 0, 2, 0, 0, 4, 0)))))) + (((((18) * mn(p, 1, 2, 1, 2, 2, 0, 1) + ((-72) * mn(p, 1, 2, 1, 1, 2, 1, 0) + (18) * mn(p, 1, 2, 1, 0, 2, 2, 1))) + ((-162) * mn(p, 1, 0, 3, 4, 0, 0, 1) + ((162) * mn(p, 1, 0, 3, 3, 0, 1, 2) + (648) * mn(p, 1, 0, 3, 3, 0, 1, 0)))) + (((-162) * mn(p, 1, 0, 3, 2, 0, 2, 3) + ((-324) * mn(p, 1, 0, 3, 2, 0, 2, 1) + (810) * mn(p, 1, 0, 3, 1, 0, 3, 2))) + (((-1944) * mn(p, 1, 0, 3, 1, 0, 3, 0) + (-162) * mn(p, 1, 0, 3, 0, 0, 4, 3)) + ((486) * mn(p, 1, 0, 3, 0, 0, 4, 1) + (1) * mn(p, 0, 4, 0, 0, 4, 0, 0))))) + ((((-18) * mn(p, 0, 2, 2, 2, 2, 0, 0) + ((18) * mn(p, 0, 2, 2, 1, 2, 1, 1) + (-18) * mn(p, 0, 2, 2, 0, 2, 2, 2))) + ((54) * mn(p, 0, 2, 2, 0, 2, 2, 0) + ((81) * mn(p, 0, 0, 4, 4, 0, 0, 0) + (-162) * mn(p, 0, 0, 4, 3, 0, 1, 1)))) + (((243) * mn(p, 0, 0, 4, 2, 0, 2, 2) + ((-486) * mn(p, 0, 0, 4, 2, 0, 2, 0) + (-162) * mn(p, 0, 0, 4, 1, 0, 3, 3))) + (((486) * mn(p, 0, 0, 4, 1, 0, 3, 1) + (81) * mn(p, 0, 0, 4, 0, 0, 4, 4)) + ((-486) * mn(p, 0, 0, 4, 0, 0, 4, 2) + (729) * mn(p, 0, 0, 4, 0, 0, 4, 0))))))));
    assert(cc0 * q == ((((((81) * mn(p, 4, 0, 0, 4, 0, 0, 0) + ((-162) * mn(p, 4, 0, 0, 3, 0, 1, 1) + (81) * mn(p, 4, 0, 0, 2, 0, 2, 2))) + ((162) * mn(p, 4, 0, 0, 2, 0, 2, 0) + ((-162) * mn(p, 4, 0, 0, 1, 0, 3, 1) + (81) * mn(p, 4, 0, 0, 0, 0, 4, 0)))) + (((-162) * mn(p, 3, 0, 1, 4, 0, 0, 1) + ((162) * mn(p, 3, 0, 1, 3, 0, 1, 2) + (648) * mn(p, 3, 0, 1, 3, 0, 1, 0))) + ((-972) * mn(p, 3, 0, 1, 2, 0, 2, 1) + ((162) * mn(p, 3, 0, 1, 1, 0, 3, 2) + (648) * mn(p, 3, 0, 1, 1, 0, 3, 0))))) + ((((-162) * mn(p, 3, 0, 1, 0, 0, 4, 1) + ((-18) * mn(p, 2, 2, 0, 2, 2, 0, 0) + (18) * mn(p, 2, 2, 0, 1, 2, 1, 1))) + ((-18) * mn(p, 2, 2, 0, 0, 2, 2, 0) + ((81) * mn(p, 2, 0, 2, 4, 0, 0, 2) + (162) * mn(p, 2, 0, 2, 4, 0, 0, 0)))) + (((-972) * mn(p, 2, 0, 2, 3, 0, 1, 1) + ((486) * mn(p, 2, 0, 2, 2, 0, 2, 2) + (972) * mn(p, 2, 0, 2, 2, 0, 2, 0))) + (((-162) * mn(p, 2, 0, 2, 1, 0, 3, 3) + (-324) * mn(p, 2, 0, 2, 1, 0, 3, 1)) + ((243) * mn(p, 2, 0, 2, 0, 0, 4, 2) + (-486) * mn(p, 2, 0, 2, 0, 0, 4, 0)))))) + (((((18) * mn(p, 1, 2, 1, 2, 2, 0, 1) + ((-72) * mn(p, 1, 2, 1, 1, 2, 1, 0) + (18) * mn(p, 1, 2, 1, 0, 2, 2, 1))) + ((-162) * mn(p, 1, 0, 3, 4, 0, 0, 1) + ((162) * mn(p, 1, 0, 3, 3, 0, 1, 2) + (648) * mn(p, 1, 0, 3, 3, 0, 1, 0)))) + (((-162) * mn(p, 1, 0, 3, 2, 0, 2, 3) + ((-324) * mn(p, 1, 0, 3, 2, 0, 2, 1) + (810) * mn(p, 1, 0, 3, 1, 0, 3, 2))) + (((-1944) * mn(p, 1, 0, 3, 1, 0, 3, 0) + (-162) * mn(p, 1, 0, 3, 0, 0, 4, 3)) + ((486) * mn(p, 1, 0, 3, 0, 0, 4, 1) + (1) * mn(p, 0, 4, 0, 0, 4, 0, 0))))) + ((((-18) * mn(p, 0, 2, 2, 2, 2, 0, 0) + ((18) * mn(p, 0, 2, 2, 1, 2, 1, 1) + (-18) * mn(p, 0, 2, 2, 0, 2, 2, 2))) + ((54) * mn(p, 0, 2, 2, 0, 2, 2, 0) + ((81) * mn(p, 0, 0, 4, 4, 0, 0, 0) + (-162) * mn(p, 0, 0, 4, 3, 0, 1, 1)))) + (((243) * mn(p, 0, 0, 4, 2, 0, 2, 2) + ((-486) * mn(p, 0, 0, 4, 2, 0, 2, 0) + (-162) * mn(p, 0, 0, 4, 1, 0, 3, 3))) + (((486) * mn(p, 0, 0, 4, 1, 0, 3, 1) + (81) * mn(p, 0, 0, 4, 0, 0, 4, 4)) + ((-486) * mn(p, 0, 0, 4, 0, 0, 4, 2) + (729) * mn(p, 0, 0, 4, 0, 0, 4, 0))))))));
}

#[verifier::rlimit(100)]
proof fn acb_prod0_c0(p: Pt)
    ensures
        (((((-9) * mn(p, 2, 0, 0, 2, 0, 0, 0) + (9) * mn(p, 2, 0, 0, 1, 0, 1, 1)) + ((-9) * mn(p, 2, 0, 0, 0, 0, 2, 0) + ((9) * mn(p, 1, 0, 1, 2, 0, 0, 1) + (-36) * mn(p, 1, 0, 1, 1, 0, 1, 0)))) + (((9) * mn(p, 1, 0, 1, 0, 0, 2, 1) + ((1) * mn(p, 0, 2, 0, 0, 2, 0, 0) + (-9) * mn(p, 0, 0, 2, 2, 0, 0, 0))) + ((9) * mn(p, 0, 0, 2, 1, 0, 1, 1) + ((-9) * mn(p, 0, 0, 2, 0, 0, 2, 2) + (27) * mn(p, 0, 0, 2, 0, 0, 2, 0)))))) * (((((-9) * mn(p, 2, 0, 0, 2, 0, 0, 0) + (9) * mn(p, 2, 0, 0, 1, 0, 1, 1)) + ((-9) * mn(p, 2, 0, 0, 0, 0, 2, 0) + ((9) * mn(p, 1, 0, 1, 2, 0, 0, 1) + (-36) * mn(p, 1, 0, 1, 1, 0, 1, 0)))) + (((9) * mn(p, 1, 0, 1, 0, 0, 2, 1) + ((1) * mn(p, 0, 2, 0, 0, 2, 0, 0) + (-9) * mn(p, 0, 0, 2, 2, 0, 0, 0))) + ((9) * mn(p, 0, 0, 2, 1, 0, 1, 1) + ((-9) * mn(p, 0, 0, 2, 0, 0, 2, 2) + (27) * mn(p, 0, 0, 2, 0, 0, 2, 0)))))) == ((((((81) * mn(p, 4, 0, 0, 4, 0, 0, 0) + ((-162) * mn(p, 4, 0, 0, 3, 0, 1, 1) + (81) * mn(p, 4, 0, 0, 2, 0, 2, 2))) + ((162) * mn(p, 4, 0, 0, 2, 0, 2, 0) + ((-162) * mn(p, 4, 0, 0, 1, 0, 3, 1) + (81) * mn(p, 4, 0, 0, 0, 0, 4, 0)))) + (((-162) * mn(p, 3, 0, 1, 4, 0, 0, 1) + ((162) * mn(p, 3, 0, 1, 3, 0, 1, 2) + (648) * mn(p, 3, 0, 1, 3, 0, 1, 0))) + ((-972) * mn(p, 3, 0, 1, 2, 0, 2, 1) + ((162) * mn(p, 3, 0, 1, 1, 0, 3, 2) + (648) * mn(p, 3, 0, 1, 1, 0, 3, 0))))) + ((((-162) * mn(p, 3, 0, 1, 0, 0, 4, 1) + ((-18) * mn(p, 2, 2, 0, 2, 2, 0, 0) + (18) * mn(p, 2, 2, 0, 1, 2, 1, 1))) + ((-18) * mn(p, 2, 2, 0, 0, 2, 2, 0) + ((81) * mn(p, 2, 0, 2, 4, 0, 0, 2) + (162) * mn(p, 2, 0, 2, 4, 0, 0, 0)))) + (((-972) * mn(p, 2, 0, 2, 3, 0, 1, 1) + ((486) * mn(p, 2, 0, 2, 2, 0, 2, 2) + (972) * mn(p, 2, 0, 2, 2, 0, 2, 0))) + (((-162) * mn(p, 2, 0, 2, 1, 0, 3, 3) + (-324) * mn(p, 2, 0, 2, 1, 0, 3, 1)) + ((243) * mn(p, 2, 0, 2, 0, 0, 4, 2) + (-486) * mn(p, 2, 0, 2, 0, 0, 4, 0)))))) + (((((18) * mn(p, 1, 2, 1, 2, 2, 0, 1) + ((-72) * mn(p, 1, 2, 1, 1, 2, 1, 0) + (18) * mn(p, 1, 2, 1, 0, 2, 2, 1))) + ((-162) * mn(p, 1, 0, 3, 4, 0, 0, 1) + ((162) * mn(p, 1, 0, 3, 3, 0, 1, 2) + (648) * mn(p, 1, 0, 3, 3, 0, 1, 0)))) + (((-162) * mn(p, 1, 0, 3, 2, 0, 2, 3) + ((-324) * mn(p, 1, 0, 3, 2, 0, 2, 1) + (810) * mn(p, 1, 0, 3, 1, 0, 3, 2))) + (((-1944) * mn(p, 1, 0, 3, 1, 0, 3, 0) + (-162) * mn(p, 1, 0, 3, 0, 0, 4, 3)) + ((486) * mn(p, 1, 0, 3, 0, 0, 4, 1) + (1) * mn(p, 0, 4, 0, 0, 4, 0, 0))))) + ((((-18) * mn(p, 0, 2, 2, 2, 2, 0, 0) + ((18) * mn(p, 0, 2, 2, 1, 2, 1, 1) + (-18) * mn(p, 0, 2, 2, 0, 2, 2, 2))) + ((54) * mn(p, 0, 2, 2, 0, 2, 2, 0) + ((81) * mn(p, 0, 0, 4, 4, 0, 0, 0) + (-162) * mn(p, 0, 0, 4, 3, 0, 1, 1)))) + (((243) * mn(p, 0, 0, 4, 2, 0, 2, 2) + ((-486) * mn(p, 0, 0, 4, 2, 0, 2, 0) + (-162) * mn(p, 0, 0, 4, 1, 0, 3, 3))) + (((486) * mn(p, 0, 0, 4, 1, 0, 3, 1) + (81) * mn(p, 0, 0, 4, 0, 0, 4, 4)) + ((-486) * mn(p, 0, 0, 4, 0, 0, 4, 2) + (729) * mn(p, 0, 0, 4, 0, 0, 4, 0))))))),
{
    let t0 = (-9) * mn(p, 2, 0, 0, 2, 0, 0, 0);
    let t1 = (9) * mn(p, 2, 0, 0, 1, 0, 1, 1);
    let t2 = (-9) * mn(p, 2, 0, 0, 0, 0, 2, 0);
    let t3 = (9) * mn(p, 1, 0, 1, 2, 0, 0, 1);
    let t4 = (-36) * mn(p, 1, 0, 1, 1, 0, 1, 0);
    let t5 = (9) * mn(p, 1, 0, 1, 0, 0, 2, 1);
    let t6 = (1) * mn(p, 0, 2, 0, 0, 2, 0, 0);
    let t7 = (-9) * mn(p, 0, 0, 2, 2, 0, 0, 0);
    let t8 = (9) * mn(p, 0, 0, 2, 1, 0, 1, 1);
    let t9 = (-9) * mn(p, 0, 0, 2, 0, 0, 2, 2);
    let t10 = (27) * mn(p, 0, 0, 2, 0, 0, 2, 0);
    let s0 = (-9) * mn(p, 2, 0, 0, 2, 0, 0, 0);
    let s1 = (9) * mn(p, 2, 0, 0, 1, 0, 1, 1);
    let s2 = (-9) * mn(p, 2, 0, 0, 0, 0, 2, 0);
    let s3 = (9) * mn(p, 1, 0, 1, 2, 0, 0, 1);
    let s4 = (-36) * mn(p, 1, 0, 1, 1, 0, 1, 0);
    let s5 = (9) * mn(p, 1, 0, 1, 0, 0, 2, 1);
    let s6 = (1) * mn(p, 0, 2, 0, 0, 2, 0, 0);
    let s7 = (-9) * mn(p, 0, 0, 2, 2, 0, 0, 0);
    let s8 = (9) * mn(p, 0, 0, 2, 1, 0, 1, 1);
    let s9 = (-9) * mn(p, 0, 0, 2, 0, 0, 2, 2);
    let s10 = (27) * mn(p, 0, 0, 2, 0, 0, 2, 0);
    let pp0 = t0;
    let pp1 = pp0 + t1;
    let pp2 = pp1 + t2;
    let pp3 = pp2 + t3;
    let pp4 = pp3 + t4;
    let pp5 = pp4 + t5;
    let pp6 = pp5 + t6;
    let pp7 = pp6 + t7;
    let pp8 = pp7 + t8;
    let pp9 = pp8 + t9;
    let pp10 = pp9 + t10;
    let qq0 = s0;
    let qq1 = qq0 + s1;
    let qq2 = qq1 + s2;
    let qq3 = qq2 + s3;
    let qq4 = qq3 + s4;
    let qq5 = qq4 + s5;
    let qq6 = qq5 + s6;
    let qq7 = qq6 + s7;
    let qq8 = qq7 + s8;
    let qq9 = qq8 + s9;
    let qq10 = qq9 + s10;
    let q = qq10;
    lemma_mul_is_distributive_add_other_way(q, pp0, t1);
    lemma_mul_is_distributive_add_other_way(q, pp1, t2);
    lemma_mul_is_distributive_add_other_way(q, pp2, t3);
    lemma_mul_is_distributive_add_other_way(q, pp3, t4);
    lemma_mul_is_distributive_add_other_way(q, pp4, t5);
    lemma_mul_is_distributive_add_other_way(q, pp5, t6);
    lemma_mul_is_distributive_add_other_way(q, pp6, t7);
    lemma_mul_is_distributive_add_other_way(q, pp7, t8);
    lemma_mul_is_distributive_add_other_way(q, pp8, t9);
    lemma_mul_is_distributive_add_other_way(q, pp9, t10);
    lemma_mul_is_distributive_add(t0, qq0, s1);
    lemma_mul_is_distributive_add(t0, qq1, s2);
    lemma_mul_is_distributive_add(t0, qq2, s3);
    lemma_mul_is_distributive_add(t0, qq3, s4);
    lemma_mul_is_distributive_add(t0, qq4, s5);
    lemma_mul_is_distributive_add(t0, qq5, s6);
    lemma_mul_is_distributive_add(t0, qq6, s7);
    lemma_mul_is_distributive_add(t0, qq7, s8);
    lemma_mul_is_distributive_add(t0, qq8, s9);
    lemma_mul_is_distributive_add(t0, qq9, s10);
    lemma_mul_is_distributive_add(t1, qq0, s1);
    lemma_mul_is_distributive_add(t1, qq1, s2);
    lemma_mul_is_distributive_add(t1, qq2, s3);
    lemma_mul_is_distributive_add(t1, qq3, s4);
    lemma_mul_is_distributive_add(t1, qq4, s5);
    lemma_mul_is_distributive_add(t1, qq5, s6);
    lemma_mul_is_distributive_add(t1, qq6, s7);
    lemma_mul_is_distributive_add(t1, qq7, s8);
    lemma_mul_is_distributive_add(t1, qq8, s9);
    lemma_mul_is_distributive_add(t1, qq9, s10);
    lemma_mul_is_distributive_add(t2, qq0, s1);
    lemma_mul_is_distributive_add(t2, qq1, s2);
    lemma_mul_is_distributive_add(t2, qq2, s3);
    lemma_mul_is_distributive_add(t2, qq3, s4);
    lemma_mul_is_distributive_add(t2, qq4, s5);
    lemma_mul_is_distributive_add(t2, qq5, s6);
    lemma_mul_is_distributive_add(t2, qq6, s7);
    lemma_mul_is_distributive_add(t2, qq7, s8);
    lemma_mul_is_distributive_add(t2, qq8, s9);
    lemma_mul_is_distributive_add(t2, qq9, s10);
    lemma_mul_is_distributive_add(t3, qq0, s1);
    lemma_mul_is_distributive_add(t3, qq1, s2);
    lemma_mul_is_distributive_add(t3, qq2, s3);
    lemma_mul_is_distributive_add(t3, qq3, s4);
    lemma_mul_is_distributive_add(t3, qq4, s5);
    lemma_mul_is_distributive_add(t3, qq5, s6);
    lemma_mul_is_distributive_add(t3, qq6, s7);
    lemma_mul_is_distributive_add(t3, qq7, s8);
    lemma_mul_is_distributive_add(t3, qq8, s9);
    lemma_mul_is_distributive_add(t3, qq9, s10);
    lemma_mul_is_distributive_add(t4, qq0, s1);
    lemma_mul_is_distributive_add(t4, qq1, s2);
    lemma_mul_is_distributive_add(t4, qq2, s3);
    lemma_mul_is_distributive_add(t4, qq3, s4);
    lemma_mul_is_distributive_add(t4, qq4, s5);
    lemma_mul_is_distributive_add(t4, qq5, s6);
    lemma_mul_is_distributive_add(t4, qq6, s7);
    lemma_mul_is_distributive_add(t4, qq7, s8);
    lemma_mul_is_distributive_add(t4, qq8, s9);
    lemma_mul_is_distributive_add(t4, qq9, s10);
    lemma_mul_is_distributive_add(t5, qq0, s1);
    lemma_mul_is_distributive_add(t5, qq1, s2);
    lemma_mul_is_distributive_add(t5, qq2, s3);
    lemma_mul_is_distributive_add(t5, qq3, s4);
    lemma_mul_is_distributive_add(t5, qq4, s5);
    lemma_mul_is_distributive_add(t5, qq5, s6);
    lemma_mul_is_distributive_add(t5, qq6, s7);
    lemma_mul_is_distributive_add(t5, qq7, s8);
    lemma_mul_is_distributive_add(t5, qq8, s9);
    lemma_mul_is_distributive_add(t5, qq9, s10);
    lemma_mul_is_distributive_add(t6, qq0, s1);
    lemma_mul_is_distributive_add(t6, qq1, s2);
    lemma_mul_is_distributive_add(t6, qq2, s3);
    lemma_mul_is_distributive_add(t6, qq3, s4);
    lemma_mul_is_distributive_add(t6, qq4, s5);
    lemma_mul_is_distributive_add(t6, qq5, s6);
    lemma_mul_is_distributive_add(t6, qq6, s7);
    lemma_mul_is_distributive_add(t6, qq7, s8);
    lemma_mul_is_distributive_add(t6, qq8, s9);
    lemma_mul_is_distributive_add(t6, qq9, s10);
    lemma_mul_is_distributive_add(t7, qq0, s1);
    lemma_mul_is_distributive_add(t7, qq1, s2);
    lemma_mul_is_distributive_add(t7, qq2, s3);
    lemma_mul_is_distributive_add(t7, qq3, s4);
    lemma_mul_is_distributive_add(t7, qq4, s5);
    lemma_mul_is_distributive_add(t7, qq5, s6);
    lemma_mul_is_distributive_add(t7, qq6, s7);
    lemma_mul_is_distributive_add(t7, qq7, s8);
    lemma_mul_is_distributive_add(t7, qq8, s9);
    lemma_mul_is_distributive_add(t7, qq9, s10);
    lemma_mul_is_distributive_add(t8, qq0, s1);
    lemma_mul_is_distributive_add(t8, qq1, s2);
    lemma_mul_is_distributive_add(t8, qq2, s3);
    lemma_mul_is_distributive_add(t8, qq3, s4);
    lemma_mul_is_distributive_add(t8, qq4, s5);
    lemma_mul_is_distributive_add(t8, qq5, s6);
    lemma_mul_is_distributive_add(t8, qq6, s7);
    lemma_mul_is_distributive_add(t8, qq7, s8);
    lemma_mul_is_distributive_add(t8, qq8, s9);
    lemma_mul_is_distributive_add(t8, qq9, s10);
    lemma_mul_is_distributive_add(t9, qq0, s1);
    lemma_mul_is_distributive_add(t9, qq1, s2);
    lemma_mul_is_distributive_add(t9, qq2, s3);
    lemma_mul_is_distributive_add(t9, qq3, s4);
    lemma_mul_is_distributive_add(t9, qq4, s5);
    lemma_mul_is_distributive_add(t9, qq5, s6);
    lemma_mul_is_distributive_add(t9, qq6, s7);
    lemma_mul_is_distributive_add(t9, qq7, s8);
    lemma_mul_is_distributive_add(t9, qq8, s9);
    lemma_mul_is_distributive_add(t9, qq9, s10);
    lemma_mul_is_distributive_add(t10, qq0, s1);
    lemma_mul_is_distributive_add(t10, qq1, s2);
    lemma_mul_is_distributive_add(t10, qq2, s3);
    lemma_mul_is_distributive_add(t10, qq3, s4);
    lemma_mul_is_distributive_add(t10, qq4, s5);
    lemma_mul_is_distributive_add(t10, qq5, s6);
    lemma_mul_is_distributive_add(t10, qq6, s7);
    lemma_mul_is_distributive_add(t10, qq7, s8);
    lemma_mul_is_distributive_add(t10, qq8, s9);
    lemma_mul_is_distributive_add(t10, qq9, s10);
    lemma_tm(p, -9, 2, 0, 0, 2, 0, 0, 0, -9, 2, 0, 0, 2, 0, 0, 0);
    assert(t0 * s0 == (81) * mn(p, 4, 0, 0, 4, 0, 0, 0));
    lemma_tm(p, -9, 2, 0, 0, 2, 0, 0, 0, 9, 2, 0, 0, 1, 0, 1, 1);
    assert(t0 * s1 == (-81) * mn(p, 4, 0, 0, 3, 0, 1, 1));
    lemma_tm(p, -9, 2, 0, 0, 2, 0, 0, 0, -9, 2, 0, 0, 0, 0, 2, 0);
    assert(t0 * s2 == (81) * mn(p, 4, 0, 0, 2, 0, 2, 0));
    lemma_tm(p, -9, 2, 0, 0, 2, 0, 0, 0, 9, 1, 0, 1, 2, 0, 0, 1);
    assert(t0 * s3 == (-81) * mn(p, 3, 0, 1, 4, 0, 0, 1));
    lemma_tm(p, -9, 2, 0, 0, 2, 0, 0, 0, -36, 1, 0, 1, 1, 0, 1, 0);
    assert(t0 * s4 == (324) * mn(p, 3, 0, 1, 3, 0, 1, 0));
    lemma_tm(p, -9, 2, 0, 0, 2, 0, 0, 0, 9, 1, 0, 1, 0, 0, 2, 1);
    assert(t0 * s5 == (-81) * mn(p, 3, 0, 1, 2, 0, 2, 1));
    lemma_tm(p, -9, 2, 0, 0, 2, 0, 0, 0, 1, 0, 2, 0, 0, 2, 0, 0);
    assert(t0 * s6 == (-9) * mn(p, 2, 2, 0, 2, 2, 0, 0));
    lemma_tm(p, -9, 2, 0, 0, 2, 0, 0, 0, -9, 0, 0, 2, 2, 0, 0, 0);
    assert(t0 * s7 == (81) * mn(p, 2, 0, 2, 4, 0, 0, 0));
    lemma_tm(p, -9, 2, 0, 0, 2, 0, 0, 0, 9, 0, 0, 2, 1, 0, 1, 1);
    assert(t0 * s8 == (-81) * mn(p, 2, 0, 2, 3, 0, 1, 1));
    lemma_tm(p, -9, 2, 0, 0, 2, 0, 0, 0, -9, 0, 0, 2, 0, 0, 2, 2);
    assert(t0 * s9 == (81) * mn(p, 2, 0, 2, 2, 0, 2, 2));
    lemma_tm(p, -9, 2, 0, 0, 2, 0, 0, 0, 27, 0, 0, 2, 0, 0, 2, 0);
    assert(t0 * s10 == (-243) * mn(p, 2, 0, 2, 2, 0, 2, 0));
    assert(t0 * q == (81) * mn(p, 4, 0, 0, 4, 0, 0, 0) + (-81) * mn(p, 4, 0, 0, 3, 0, 1, 1) + (81) * mn(p, 4, 0, 0, 2, 0, 2, 0) + (-81) * mn(p, 3, 0, 1, 4, 0, 0, 1) + (324) * mn(p, 3, 0, 1, 3, 0, 1, 0) + (-81) * mn(p, 3, 0, 1, 2, 0, 2, 1) + (-9) * mn(p, 2, 2, 0, 2, 2, 0, 0) + (81) * mn(p, 2, 0, 2, 4, 0, 0, 0) + (-81) * mn(p, 2, 0, 2, 3, 0, 1, 1) + (81) * mn(p, 2, 0, 2, 2, 0, 2, 2) + (-243) * mn(p, 2, 0, 2, 2, 0, 2, 0));
    lemma_tm(p, 9, 2, 0, 0, 1, 0, 1, 1, -9, 2, 0, 0, 2, 0, 0, 0);
    assert(t1 * s0 == (-81) * mn(p, 4, 0, 0, 3, 0, 1, 1));
    lemma_tm(p, 9, 2, 0, 0, 1, 0, 1, 1, 9, 2, 0, 0, 1, 0, 1, 1);
    assert(t1 * s1 == (81) * mn(p, 4, 0, 0, 2, 0, 2, 2));
    lemma_tm(p, 9, 2, 0, 0, 1, 0, 1, 1, -9, 2, 0, 0, 0, 0, 2, 0);
    assert(t1 * s2 == (-81) * mn(p, 4, 0, 0, 1, 0, 3, 1));
    lemma_tm(p, 9, 2, 0, 0, 1, 0, 1, 1, 9, 1, 0, 1, 2, 0, 0, 1);
    assert(t1 * s3 == (81) * mn(p, 3, 0, 1, 3, 0, 1, 2));
    lemma_tm(p, 9, 2, 0, 0, 1, 0, 1, 1, -36, 1, 0, 1, 1, 0, 1, 0);
    assert(t1 * s4 == (-324) * mn(p, 3, 0, 1, 2, 0, 2, 1));
    lemma_tm(p, 9, 2, 0, 0, 1, 0, 1, 1, 9, 1, 0, 1, 0, 0, 2, 1);
    assert(t1 * s5 == (81) * mn(p, 3, 0, 1, 1, 0, 3, 2));
    lemma_tm(p, 9, 2, 0, 0, 1, 0, 1, 1, 1, 0, 2, 0, 0, 2, 0, 0);
    assert(t1 * s6 == (9) * mn(p, 2, 2, 0, 1, 2, 1, 1));
    lemma_tm(p, 9, 2, 0, 0, 1, 0, 1, 1, -9, 0, 0, 2, 2, 0, 0, 0);
    assert(t1 * s7 == (-81) * mn(p, 2, 0, 2, 3, 0, 1, 1));
    lemma_tm(p, 9, 2, 0, 0, 1, 0, 1, 1, 9, 0, 0, 2, 1, 0, 1, 1);
    assert(t1 * s8 == (81) * mn(p, 2, 0, 2, 2, 0, 2, 2));
    lemma_tm(p, 9, 2, 0, 0, 1, 0, 1, 1, -9, 0, 0, 2, 0, 0, 2, 2);
    assert(t1 * s9 == (-81) * mn(p, 2, 0, 2, 1, 0, 3, 3));
    lemma_tm(p, 9, 2, 0, 0, 1, 0, 1, 1, 27, 0, 0, 2, 0, 0, 2, 0);
    assert(t1 * s10 == (243) * mn(p, 2, 0, 2, 1, 0, 3, 1));
    assert(t1 * q == (-81) * mn(p, 4, 0, 0, 3, 0, 1, 1) + (81) * mn(p, 4, 0, 0, 2, 0, 2, 2) + (-81) * mn(p, 4, 0, 0, 1, 0, 3, 1) + (81) * mn(p, 3, 0, 1, 3, 0, 1, 2) + (-324) * mn(p, 3, 0, 1, 2, 0, 2, 1) + (81) * mn(p, 3, 0, 1, 1, 0, 3, 2) + (9) * mn(p, 2, 2, 0, 1, 2, 1, 1) + (-81) * mn(p, 2, 0, 2, 3, 0, 1, 1) + (81) * mn(p, 2, 0, 2, 2, 0, 2, 2) + (-81) * mn(p, 2, 0, 2, 1, 0, 3, 3) + (243) * mn(p, 2, 0, 2, 1, 0, 3, 1));
    lemma_tm(p, -9, 2, 0, 0, 0, 0, 2, 0, -9, 2, 0, 0, 2, 0, 0, 0);
    assert(t2 * s0 == (81) * mn(p, 4, 0, 0, 2, 0, 2, 0));
    lemma_tm(p, -9, 2, 0, 0, 0, 0, 2, 0, 9, 2, 0, 0, 1, 0, 1, 1);
    assert(t2 * s1 == (-81) * mn(p, 4, 0, 0, 1, 0, 3, 1));
    lemma_tm(p, -9, 2, 0, 0, 0, 0, 2, 0, -9, 2, 0, 0, 0, 0, 2, 0);
    assert(t2 * s2 == (81) * mn(p, 4, 0, 0, 0, 0, 4, 0));
    lemma_tm(p, -9, 2, 0, 0, 0, 0, 2, 0, 9, 1, 0, 1, 2, 0, 0, 1);
    assert(t2 * s3 == (-81) * mn(p, 3, 0, 1, 2, 0, 2, 1));
    lemma_tm(p, -9, 2, 0, 0, 0, 0, 2, 0, -36, 1, 0, 1, 1, 0, 1, 0);
    assert(t2 * s4 == (324) * mn(p, 3, 0, 1, 1, 0, 3, 0));
    lemma_tm(p, -9, 2, 0, 0, 0, 0, 2, 0, 9, 1, 0, 1, 0, 0, 2, 1);
    assert(t2 * s5 == (-81) * mn(p, 3, 0, 1, 0, 0, 4, 1));
    lemma_tm(p, -9, 2, 0, 0, 0, 0, 2, 0, 1, 0, 2, 0, 0, 2, 0, 0);
    assert(t2 * s6 == (-9) * mn(p, 2, 2, 0, 0, 2, 2, 0));
    lemma_tm(p, -9, 2, 0, 0, 0, 0, 2, 0, -9, 0, 0, 2, 2, 0, 0, 0);
    assert(t2 * s7 == (81) * mn(p, 2, 0, 2, 2, 0, 2, 0));
    lemma_tm(p, -9, 2, 0, 0, 0, 0, 2, 0, 9, 0, 0, 2, 1, 0, 1, 1);
    assert(t2 * s8 == (-81) * mn(p, 2, 0, 2, 1, 0, 3, 1));
    lemma_tm(p, -9, 2, 0, 0, 0, 0, 2, 0, -9, 0, 0, 2, 0, 0, 2, 2);
    assert(t2 * s9 == (81) * mn(p, 2, 0, 2, 0, 0, 4, 2));
    lemma_tm(p, -9, 2, 0, 0, 0, 0, 2, 0, 27, 0, 0, 2, 0, 0, 2, 0);
    assert(t2 * s10 == (-243) * mn(p, 2, 0, 2, 0, 0, 4, 0));
    assert(t2 * q == (81) * mn(p, 4, 0, 0, 2, 0, 2, 0) + (-81) * mn(p, 4, 0, 0, 1, 0, 3, 1) + (81) * mn(p, 4, 0, 0, 0, 0, 4, 0) + (-81) * mn(p, 3, 0, 1, 2, 0, 2, 1) + (324) * mn(p, 3, 0, 1, 1, 0, 3, 0) + (-81) * mn(p, 3, 0, 1, 0, 0, 4, 1) + (-9) * mn(p, 2, 2, 0, 0, 2, 2, 0) + (81) * mn(p, 2, 0, 2, 2, 0, 2, 0) + (-81) * mn(p, 2, 0, 2, 1, 0, 3, 1) + (81) * mn(p, 2, 0, 2, 0, 0, 4, 2) + (-243) * mn(p, 2, 0, 2, 0, 0, 4, 0));
    lemma_tm(p, 9, 1, 0, 1, 2, 0, 0, 1, -9, 2, 0, 0, 2, 0, 0, 0);
    assert(t3 * s0 == (-81) * mn(p, 3, 0, 1, 4, 0, 0, 1));
    lemma_tm(p, 9, 1, 0, 1, 2, 0, 0, 1, 9, 2, 0, 0, 1, 0, 1, 1);
    assert(t3 * s1 == (81) * mn(p, 3, 0, 1, 3, 0, 1, 2));
    lemma_tm(p, 9, 1, 0, 1, 2, 0, 0, 1, -9, 2, 0, 0, 0, 0, 2, 0);
    assert(t3 * s2 == (-81) * mn(p, 3, 0, 1, 2, 0, 2, 1));
    lemma_tm(p, 9, 1, 0, 1, 2, 0, 0, 1, 9, 1, 0, 1, 2, 0, 0, 1);
    assert(t3 * s3 == (81) * mn(p, 2, 0, 2, 4, 0, 0, 2));
    lemma_tm(p, 9, 1, 0, 1, 2, 0, 0, 1, -36, 1, 0, 1, 1, 0, 1, 0);
    assert(t3 * s4 == (-324) * mn(p, 2, 0, 2, 3, 0, 1, 1));
    lemma_tm(p, 9, 1, 0, 1, 2, 0, 0, 1, 9, 1, 0, 1, 0, 0, 2, 1);
    assert(t3 * s5 == (81) * mn(p, 2, 0, 2, 2, 0, 2, 2));
    lemma_tm(p, 9, 1, 0, 1, 2, 0, 0, 1, 1, 0, 2, 0, 0, 2, 0, 0);
    assert(t3 * s6 == (9) * mn(p, 1, 2, 1, 2, 2, 0, 1));
    lemma_tm(p, 9, 1, 0, 1, 2, 0, 0, 1, -9, 0, 0, 2, 2, 0, 0, 0);
    assert(t3 * s7 == (-81) * mn(p, 1, 0, 3, 4, 0, 0, 1));
    lemma_tm(p, 9, 1, 0, 1, 2, 0, 0, 1, 9, 0, 0, 2, 1, 0, 1, 1);
    assert(t3 * s8 == (81) * mn(p, 1, 0, 3, 3, 0, 1, 2));
    lemma_tm(p, 9, 1, 0, 1, 2, 0, 0, 1, -9, 0, 0, 2, 0, 0, 2, 2);
    assert(t3 * s9 == (-81) * mn(p, 1, 0, 3, 2, 0, 2, 3));
    lemma_tm(p, 9, 1, 0, 1, 2, 0, 0, 1, 27, 0, 0, 2, 0, 0, 2, 0);
    assert(t3 * s10 == (243) * mn(p, 1, 0, 3, 2, 0, 2, 1));
    assert(t3 * q == (-81) * mn(p, 3, 0, 1, 4, 0, 0, 1) + (81) * mn(p, 3, 0, 1, 3, 0, 1, 2) + (-81) * mn(p, 3, 0, 1, 2, 0, 2, 1) + (81) * mn(p, 2, 0, 2, 4, 0, 0, 2) + (-324) * mn(p, 2, 0, 2, 3, 0, 1, 1) + (81) * mn(p, 2, 0, 2, 2, 0, 2, 2) + (9) * mn(p, 1, 2, 1, 2, 2, 0, 1) + (-81) * mn(p, 1, 0, 3, 4, 0, 0, 1) + (81) * mn(p, 1, 0, 3, 3, 0, 1, 2) + (-81) * mn(p, 1, 0, 3, 2, 0, 2, 3) + (243) * mn(p, 1, 0, 3, 2, 0, 2, 1));
    lemma_tm(p, -36, 1, 0, 1, 1, 0, 1, 0, -9, 2, 0, 0, 2, 0, 0, 0);
    assert(t4 * s0 == (324) * mn(p, 3, 0, 1, 3, 0, 1, 0));
    lemma_tm(p, -36, 1, 0, 1, 1, 0, 1, 0, 9, 2, 0, 0, 1, 0, 1, 1);
    assert(t4 * s1 == (-324) * mn(p, 3, 0, 1, 2, 0, 2, 1));
    lemma_tm(p, -36, 1, 0, 1, 1, 0, 1, 0, -9, 2, 0, 0, 0, 0, 2, 0);
    assert(t4 * s2 == (324) * mn(p, 3, 0, 1, 1, 0, 3, 0));
    lemma_tm(p, -36, 1, 0, 1, 1, 0, 1, 0, 9, 1, 0, 1, 2, 0, 0, 1);
    assert(t4 * s3 == (-324) * mn(p, 2, 0, 2, 3, 0, 1, 1));
    lemma_tm(p, -36, 1, 0, 1, 1, 0, 1, 0, -36, 1, 0, 1, 1, 0, 1, 0);
    assert(t4 * s4 == (1296) * mn(p, 2, 0, 2, 2, 0, 2, 0));
    lemma_tm(p, -36, 1, 0, 1, 1, 0, 1, 0, 9, 1, 0, 1, 0, 0, 2, 1);
    assert(t4 * s5 == (-324) * mn(p, 2, 0, 2, 1, 0, 3, 1));
    lemma_tm(p, -36, 1, 0, 1, 1, 0, 1, 0, 1, 0, 2, 0, 0, 2, 0, 0);
    assert(t4 * s6 == (-36) * mn(p, 1, 2, 1, 1, 2, 1, 0));
    lemma_tm(p, -36, 1, 0, 1, 1, 0, 1, 0, -9, 0, 0, 2, 2, 0, 0, 0);
    assert(t4 * s7 == (324) * mn(p, 1, 0, 3, 3, 0, 1, 0));
    lemma_tm(p, -36, 1, 0, 1, 1, 0, 1, 0, 9, 0, 0, 2, 1, 0, 1, 1);
    assert(t4 * s8 == (-324) * mn(p, 1, 0, 3, 2, 0, 2, 1));
    lemma_tm(p, -36, 1, 0, 1, 1, 0, 1, 0, -9, 0, 0, 2, 0, 0, 2, 2);
    assert(t4 * s9 == (324) * mn(p, 1, 0, 3, 1, 0, 3, 2));
    lemma_tm(p, -36, 1, 0, 1, 1, 0, 1, 0, 27, 0, 0, 2, 0, 0, 2, 0);
    assert(t4 * s10 == (-972) * mn(p, 1, 0, 3, 1, 0, 3, 0));
    assert(t4 * q == (324) * mn(p, 3, 0, 1, 3, 0, 1, 0) + (-324) * mn(p, 3, 0, 1, 2, 0, 2, 1) + (324) * mn(p, 3, 0, 1, 1, 0, 3, 0) + (-324) * mn(p, 2, 0, 2, 3, 0, 1, 1) + (1296) * mn(p, 2, 0, 2, 2, 0, 2, 0) + (-324) * mn(p, 2, 0, 2, 1, 0, 3, 1) + (-36) * mn(p, 1, 2, 1, 1, 2, 1, 0) + (324) * mn(p, 1, 0, 3, 3, 0, 1, 0) + (-324) * mn(p, 1, 0, 3, 2, 0, 2, 1) + (324) * mn(p, 1, 0, 3, 1, 0, 3, 2) + (-972) * mn(p, 1, 0, 3, 1, 0, 3, 0));
    lemma_tm(p, 9, 1, 0, 1, 0, 0, 2, 1, -9, 2, 0, 0, 2, 0, 0, 0);
    assert(t5 * s0 == (-81) * mn(p, 3, 0, 1, 2, 0, 2, 1));
    lemma_tm(p, 9, 1, 0, 1, 0, 0, 2, 1, 9, 2, 0, 0, 1, 0, 1, 1);
    assert(t5 * s1 == (81) * mn(p, 3, 0, 1, 1, 0, 3, 2));
    lemma_tm(p, 9, 1, 0, 1, 0, 0, 2, 1, -9, 2, 0, 0, 0, 0, 2, 0);
    assert(t5 * s2 == (-81) * mn(p, 3, 0, 1, 0, 0, 4, 1));
    lemma_tm(p, 9, 1, 0, 1, 0, 0, 2, 1, 9, 1, 0, 1, 2, 0, 0, 1);
    assert(t5 * s3 == (81) * mn(p, 2, 0, 2, 2, 0, 2, 2));
    lemma_tm(p, 9, 1, 0, 1, 0, 0, 2, 1, -36, 1, 0, 1, 1, 0, 1, 0);
    assert(t5 * s4 == (-324) * mn(p, 2, 0, 2, 1, 0, 3, 1));
    lemma_tm(p, 9, 1, 0, 1, 0, 0, 2, 1, 9, 1, 0, 1, 0, 0, 2, 1);
    assert(t5 * s5 == (81) * mn(p, 2, 0, 2, 0, 0, 4, 2));
    lemma_tm(p, 9, 1, 0, 1, 0, 0, 2, 1, 1, 0, 2, 0, 0, 2, 0, 0);
    assert(t5 * s6 == (9) * mn(p, 1, 2, 1, 0, 2, 2, 1));
    lemma_tm(p, 9, 1, 0, 1, 0, 0, 2, 1, -9, 0, 0, 2, 2, 0, 0, 0);
    assert(t5 * s7 == (-81) * mn(p, 1, 0, 3, 2, 0, 2, 1));
    lemma_tm(p, 9, 1, 0, 1, 0, 0, 2, 1, 9, 0, 0, 2, 1, 0, 1, 1);
    assert(t5 * s8 == (81) * mn(p, 1, 0, 3, 1, 0, 3, 2));
    lemma_tm(p, 9, 1, 0, 1, 0, 0, 2, 1, -9, 0, 0, 2, 0, 0, 2, 2);
    assert(t5 * s9 == (-81) * mn(p, 1, 0, 3, 0, 0, 4, 3));
    lemma_tm(p, 9, 1, 0, 1, 0, 0, 2, 1, 27, 0, 0, 2, 0, 0, 2, 0);
    assert(t5 * s10 == (243) * mn(p, 1, 0, 3, 0, 0, 4, 1));
    assert(t5 * q == (-81) * mn(p, 3, 0, 1, 2, 0, 2, 1) + (81) * mn(p, 3, 0, 1, 1, 0, 3, 2) + (-81) * mn(p, 3, 0, 1, 0, 0, 4, 1) + (81) * mn(p, 2, 0, 2, 2, 0, 2, 2) + (-324) * mn(p, 2, 0, 2, 1, 0, 3, 1) + (81) * mn(p, 2, 0, 2, 0, 0, 4, 2) + (9) * mn(p, 1, 2, 1, 0, 2, 2, 1) + (-81) * mn(p, 1, 0, 3, 2, 0, 2, 1) + (81) * mn(p, 1, 0, 3, 1, 0, 3, 2) + (-81) * mn(p, 1, 0, 3, 0, 0, 4, 3) + (243) * mn(p, 1, 0, 3, 0, 0, 4, 1));
    lemma_tm(p, 1, 0, 2, 0, 0, 2, 0, 0, -9, 2, 0, 0, 2, 0, 0, 0);
    assert(t6 * s0 == (-9) * mn(p, 2, 2, 0, 2, 2, 0, 0));
    lemma_tm(p, 1, 0, 2, 0, 0, 2, 0, 0, 9, 2, 0, 0, 1, 0, 1, 1);
    assert(t6 * s1 == (9) * mn(p, 2, 2, 0, 1, 2, 1, 1));
    lemma_tm(p, 1, 0, 2, 0, 0, 2, 0, 0, -9, 2, 0, 0, 0, 0, 2, 0);
    assert(t6 * s2 == (-9) * mn(p, 2, 2, 0, 0, 2, 2, 0));
    lemma_tm(p, 1, 0, 2, 0, 0, 2, 0, 0, 9, 1, 0, 1, 2, 0, 0, 1);
    assert(t6 * s3 == (9) * mn(p, 1, 2, 1, 2, 2, 0, 1));
    lemma_tm(p, 1, 0, 2, 0, 0, 2, 0, 0, -36, 1, 0, 1, 1, 0, 1, 0);
    assert(t6 * s4 == (-36) * mn(p, 1, 2, 1, 1, 2, 1, 0));
    lemma_tm(p, 1, 0, 2, 0, 0, 2, 0, 0, 9, 1, 0, 1, 0, 0, 2, 1);
    assert(t6 * s5 == (9) * mn(p, 1, 2, 1, 0, 2, 2, 1));
    lemma_tm(p, 1, 0, 2, 0, 0, 2, 0, 0, 1, 0, 2, 0, 0, 2, 0, 0);
    assert(t6 * s6 == (1) * mn(p, 0, 4, 0, 0, 4, 0, 0));
    lemma_tm(p, 1, 0, 2, 0, 0, 2, 0, 0, -9, 0, 0, 2, 2, 0, 0, 0);
    assert(t6 * s7 == (-9) * mn(p, 0, 2, 2, 2, 2, 0, 0));
    lemma_tm(p, 1, 0, 2, 0, 0, 2, 0, 0, 9, 0, 0, 2, 1, 0, 1, 1);
    assert(t6 * s8 == (9) * mn(p, 0, 2, 2, 1, 2, 1, 1));
    lemma_tm(p, 1, 0, 2, 0, 0, 2, 0, 0, -9, 0, 0, 2, 0, 0, 2, 2);
    assert(t6 * s9 == (-9) * mn(p, 0, 2, 2, 0, 2, 2, 2));
    lemma_tm(p, 1, 0, 2, 0, 0, 2, 0, 0, 27, 0, 0, 2, 0, 0, 2, 0);
    assert(t6 * s10 == (27) * mn(p, 0, 2, 2, 0, 2, 2, 0));
    assert(t6 * q == (-9) * mn(p, 2, 2, 0, 2, 2, 0, 0) + (9) * mn(p, 2, 2, 0, 1, 2, 1, 1) + (-9) * mn(p, 2, 2, 0, 0, 2, 2, 0) + (9) * mn(p, 1, 2, 1, 2, 2, 0, 1) + (-36) * mn(p, 1, 2, 1, 1, 2, 1, 0) + (9) * mn(p, 1, 2, 1, 0, 2, 2, 1) + (1) * mn(p, 0, 4, 0, 0, 4, 0, 0) + (-9) * mn(p, 0, 2, 2, 2, 2, 0, 0) + (9) * mn(p, 0, 2, 2, 1, 2, 1, 1) + (-9) * mn(p, 0, 2, 2, 0, 2, 2, 2) + (27) * mn(p, 0, 2, 2, 0, 2, 2, 0));
    lemma_tm(p, -9, 0, 0, 2, 2, 0, 0, 0, -9, 2, 0, 0, 2, 0, 0, 0);
    assert(t7 * s0 == (81) * mn(p, 2, 0, 2, 4, 0, 0, 0));
    lemma_tm(p, -9, 0, 0, 2, 2, 0, 0, 0, 9, 2, 0, 0, 1, 0, 1, 1);
    assert(t7 * s1 == (-81) * mn(p, 2, 0, 2, 3, 0, 1, 1));
    lemma_tm(p, -9, 0, 0, 2, 2, 0, 0, 0, -9, 2, 0, 0, 0, 0, 2, 0);
    assert(t7 * s2 == (81) * mn(p, 2, 0, 2, 2, 0, 2, 0));
    lemma_tm(p, -9, 0, 0, 2, 2, 0, 0, 0, 9, 1, 0, 1, 2, 0, 0, 1);
    assert(t7 * s3 == (-81) * mn(p, 1, 0, 3, 4, 0, 0, 1));
    lemma_tm(p, -9, 0, 0, 2, 2, 0, 0, 0, -36, 1, 0, 1, 1, 0, 1, 0);
    assert(t7 * s4 == (324) * mn(p, 1, 0, 3, 3, 0, 1, 0));
    lemma_tm(p, -9, 0, 0, 2, 2, 0, 0, 0, 9, 1, 0, 1, 0, 0, 2, 1);
    assert(t7 * s5 == (-81) * mn(p, 1, 0, 3, 2, 0, 2, 1));
    lemma_tm(p, -9, 0, 0, 2, 2, 0, 0, 0, 1, 0, 2, 0, 0, 2, 0, 0);
    assert(t7 * s6 == (-9) * mn(p, 0, 2, 2, 2, 2, 0, 0));
    lemma_tm(p, -9, 0, 0, 2, 2, 0, 0, 0, -9, 0, 0, 2, 2, 0, 0, 0);
    assert(t7 * s7 == (81) * mn(p, 0, 0, 4, 4, 0, 0, 0));
    lemma_tm(p, -9, 0, 0, 2, 2, 0, 0, 0, 9, 0, 0, 2, 1, 0, 1, 1);
    assert(t7 * s8 == (-81) * mn(p, 0, 0, 4, 3, 0, 1, 1));
    lemma_tm(p, -9, 0, 0, 2, 2, 0, 0, 0, -9, 0, 0, 2, 0, 0, 2, 2);
    assert(t7 * s9 == (81) * mn(p, 0, 0, 4, 2, 0, 2, 2));
    lemma_tm(p, -9, 0, 0, 2, 2, 0, 0, 0, 27, 0, 0, 2, 0, 0, 2, 0);
    assert(t7 * s10 == (-243) * mn(p, 0, 0, 4, 2, 0, 2, 0));
    assert(t7 * q == (81) * mn(p, 2, 0, 2, 4, 0, 0, 0) + (-81) * mn(p, 2, 0, 2, 3, 0, 1, 1) + (81) * mn(p, 2, 0, 2, 2, 0, 2, 0) + (-81) * mn(p, 1, 0, 3, 4, 0, 0, 1) + (324) * mn(p, 1, 0, 3, 3, 0, 1, 0) + (-81) * mn(p, 1, 0, 3, 2, 0, 2, 1) + (-9) * mn(p, 0, 2, 2, 2, 2, 0, 0) + (81) * mn(p, 0, 0, 4, 4, 0, 0, 0) + (-81) * mn(p, 0, 0, 4, 3, 0, 1, 1) + (81) * mn(p, 0, 0, 4, 2, 0, 2, 2) + (-243) * mn(p, 0, 0, 4, 2, 0, 2, 0));
    lemma_tm(p, 9, 0, 0, 2, 1, 0, 1, 1, -9, 2, 0, 0, 2, 0, 0, 0);
    assert(t8 * s0 == (-81) * mn(p, 2, 0, 2, 3, 0, 1, 1));
    lemma_tm(p, 9, 0, 0, 2, 1, 0, 1, 1, 9, 2, 0, 0, 1, 0, 1, 1);
    assert(t8 * s1 == (81) * mn(p, 2, 0, 2, 2, 0, 2, 2));
    lemma_tm(p, 9, 0, 0, 2, 1, 0, 1, 1, -9, 2, 0, 0, 0, 0, 2, 0);
    assert(t8 * s2 == (-81) * mn(p, 2, 0, 2, 1, 0, 3, 1));
    lemma_tm(p, 9, 0, 0, 2, 1, 0, 1, 1, 9, 1, 0, 1, 2, 0, 0, 1);
    assert(t8 * s3 == (81) * mn(p, 1, 0, 3, 3, 0, 1, 2));
    lemma_tm(p, 9, 0, 0, 2, 1, 0, 1, 1, -36, 1, 0, 1, 1, 0, 1, 0);
    assert(t8 * s4 == (-324) * mn(p, 1, 0, 3, 2, 0, 2, 1));
    lemma_tm(p, 9, 0, 0, 2, 1, 0, 1, 1, 9, 1, 0, 1, 0, 0, 2, 1);
    assert(t8 * s5 == (81) * mn(p, 1, 0, 3, 1, 0, 3, 2));
    lemma_tm(p, 9, 0, 0, 2, 1, 0, 1, 1, 1, 0, 2, 0, 0, 2, 0, 0);
    assert(t8 * s6 == (9) * mn(p, 0, 2, 2, 1, 2, 1, 1));
    lemma_tm(p, 9, 0, 0, 2, 1, 0, 1, 1, -9, 0, 0, 2, 2, 0, 0, 0);
    assert(t8 * s7 == (-81) * mn(p, 0, 0, 4, 3, 0, 1, 1));
    lemma_tm(p, 9, 0, 0, 2, 1, 0, 1, 1, 9, 0, 0, 2, 1, 0, 1, 1);
    assert(t8 * s8 == (81) * mn(p, 0, 0, 4, 2, 0, 2, 2));
    lemma_tm(p, 9, 0, 0, 2, 1, 0, 1, 1, -9, 0, 0, 2, 0, 0, 2, 2);
    assert(t8 * s9 == (-81) * mn(p, 0, 0, 4, 1, 0, 3, 3));
    lemma_tm(p, 9, 0, 0, 2, 1, 0, 1, 1, 27, 0, 0, 2, 0, 0, 2, 0);
    assert(t8 * s10 == (243) * mn(p, 0, 0, 4, 1, 0, 3, 1));
    assert(t8 * q == (-81) * mn(p, 2, 0, 2, 3, 0, 1, 1) + (81) * mn(p, 2, 0, 2, 2, 0, 2, 2) + (-81) * mn(p, 2, 0, 2, 1, 0, 3, 1) + (81) * mn(p, 1, 0, 3, 3, 0, 1, 2) + (-324) * mn(p, 1, 0, 3, 2, 0, 2, 1) + (81) * mn(p, 1, 0, 3, 1, 0, 3, 2) + (9) * mn(p, 0, 2, 2, 1, 2, 1, 1) + (-81) * mn(p, 0, 0, 4, 3, 0, 1, 1) + (81) * mn(p, 0, 0, 4, 2, 0, 2, 2) + (-81) * mn(p, 0, 0, 4, 1, 0, 3, 3) + (243) * mn(p, 0, 0, 4, 1, 0, 3, 1));
    lemma_tm(p, -9, 0, 0, 2, 0, 0, 2, 2, -9, 2, 0, 0, 2, 0, 0, 0);
    assert(t9 * s0 == (81) * mn(p, 2, 0, 2, 2, 0, 2, 2));
    lemma_tm(p, -9, 0, 0, 2, 0, 0, 2, 2, 9, 2, 0, 0, 1, 0, 1, 1);
    assert(t9 * s1 == (-81) * mn(p, 2, 0, 2, 1, 0, 3, 3));
    lemma_tm(p, -9, 0, 0, 2, 0, 0, 2, 2, -9, 2, 0, 0, 0, 0, 2, 0);
    assert(t9 * s2 == (81) * mn(p, 2, 0, 2, 0, 0, 4, 2));
    lemma_tm(p, -9, 0, 0, 2, 0, 0, 2, 2, 9, 1, 0, 1, 2, 0, 0, 1);
    assert(t9 * s3 == (-81) * mn(p, 1, 0, 3, 2, 0, 2, 3));
    lemma_tm(p, -9, 0, 0, 2, 0, 0, 2, 2, -36, 1, 0, 1, 1, 0, 1, 0);
    assert(t9 * s4 == (324) * mn(p, 1, 0, 3, 1, 0, 3, 2));
    lemma_tm(p, -9, 0, 0, 2, 0, 0, 2, 2, 9, 1, 0, 1, 0, 0, 2, 1);
    assert(t9 * s5 == (-81) * mn(p, 1, 0, 3, 0, 0, 4, 3));
    lemma_tm(p, -9, 0, 0, 2, 0, 0, 2, 2, 1, 0, 2, 0, 0, 2, 0, 0);
    assert(t9 * s6 == (-9) * mn(p, 0, 2, 2, 0, 2, 2, 2));
    lemma_tm(p, -9, 0, 0, 2, 0, 0, 2, 2, -9, 0, 0, 2, 2, 0, 0, 0);
    assert(t9 * s7 == (81) * mn(p, 0, 0, 4, 2, 0, 2, 2));
    lemma_tm(p, -9, 0, 0, 2, 0, 0, 2, 2, 9, 0, 0, 2, 1, 0, 1, 1);
    assert(t9 * s8 == (-81) * mn(p, 0, 0, 4, 1, 0, 3, 3));
    lemma_tm(p, -9, 0, 0, 2, 0, 0, 2, 2, -9, 0, 0, 2, 0, 0, 2, 2);
    assert(t9 * s9 == (81) * mn(p, 0, 0, 4, 0, 0, 4, 4));
    lemma_tm(p, -9, 0, 0, 2, 0, 0, 2, 2, 27, 0, 0, 2, 0, 0, 2, 0);
    assert(t9 * s10 == (-243) * mn(p, 0, 0, 4, 0, 0, 4, 2));
    assert(t9 * q == (81) * mn(p, 2, 0, 2, 2, 0, 2, 2) + (-81) * mn(p, 2, 0, 2, 1, 0, 3, 3) + (81) * mn(p, 2, 0, 2, 0, 0, 4, 2) + (-81) * mn(p, 1, 0, 3, 2, 0, 2, 3) + (324) * mn(p, 1, 0, 3, 1, 0, 3, 2) + (-81) * mn(p, 1, 0, 3, 0, 0, 4, 3) + (-9) * mn(p, 0, 2, 2, 0, 2, 2, 2) + (81) * mn(p, 0, 0, 4, 2, 0, 2, 2) + (-81) * mn(p, 0, 0, 4, 1, 0, 3, 3) + (81) * mn(p, 0, 0, 4, 0, 0, 4, 4) + (-243) * mn(p, 0, 0, 4, 0, 0, 4, 2));
    lemma_tm(p, 27, 0, 0, 2, 0, 0, 2, 0, -9, 2, 0, 0, 2, 0, 0, 0);
    assert(t10 * s0 == (-243) * mn(p, 2, 0, 2, 2, 0, 2, 0));
    lemma_tm(p, 27, 0, 0, 2, 0, 0, 2, 0, 9, 2, 0, 0, 1, 0, 1, 1);
    assert(t10 * s1 == (243) * mn(p, 2, 0, 2, 1, 0, 3, 1));
    lemma_tm(p, 27, 0, 0, 2, 0, 0, 2, 0, -9, 2, 0, 0, 0, 0, 2, 0);
    assert(t10 * s2 == (-243) * mn(p, 2, 0, 2, 0, 0, 4, 0));
    lemma_tm(p, 27, 0, 0, 2, 0, 0, 2, 0, 9, 1, 0, 1, 2, 0, 0, 1);
    assert(t10 * s3 == (243) * mn(p, 1, 0, 3, 2, 0, 2, 1));
    lemma_tm(p, 27, 0, 0, 2, 0, 0, 2, 0, -36, 1, 0, 1, 1, 0, 1, 0);
    assert(t10 * s4 == (-972) * mn(p, 1, 0, 3, 1, 0, 3, 0));
    lemma_tm(p, 27, 0, 0, 2, 0, 0, 2, 0, 9, 1, 0, 1, 0, 0, 2, 1);
    assert(t10 * s5 == (243) * mn(p, 1, 0, 3, 0, 0, 4, 1));
    lemma_tm(p, 27, 0, 0, 2, 0, 0, 2, 0, 1, 0, 2, 0, 0, 2, 0, 0);
    assert(t10 * s6 == (27) * mn(p, 0, 2, 2, 0, 2, 2, 0));
    lemma_tm(p, 27, 0, 0, 2, 0, 0, 2, 0, -9, 0, 0, 2, 2, 0, 0, 0);
    assert(t10 * s7 == (-243) * mn(p, 0, 0, 4, 2, 0, 2, 0));
    lemma_tm(p, 27, 0, 0, 2, 0, 0, 2, 0, 9, 0, 0, 2, 1, 0, 1, 1);
    assert(t10 * s8 == (243) * mn(p, 0, 0, 4, 1, 0, 3, 1));
    lemma_tm(p, 27, 0, 0, 2, 0, 0, 2, 0, -9, 0, 0, 2, 0, 0, 2, 2);
    assert(t10 * s9 == (-243) * mn(p, 0, 0, 4, 0, 0, 4, 2));
    lemma_tm(p, 27, 0, 0, 2, 0, 0, 2, 0, 27, 0, 0, 2, 0, 0, 2, 0);
    assert(t10 * s10 == (729) * mn(p, 0, 0, 4, 0, 0, 4, 0));
    assert(t10 * q == (-243) * mn(p, 2, 0, 2, 2, 0, 2, 0) + (243) * mn(p, 2, 0, 2, 1, 0, 3, 1) + (-243) * mn(p, 2, 0, 2, 0, 0, 4, 0) + (243) * mn(p, 1, 0, 3, 2, 0, 2, 1) + (-972) * mn(p, 1, 0, 3, 1, 0, 3, 0) + (243) * mn(p, 1, 0, 3, 0, 0, 4, 1) + (27) * mn(p, 0, 2, 2, 0, 2, 2, 0) + (-243) * mn(p, 0, 0, 4, 2, 0, 2, 0) + (243) * mn(p, 0, 0, 4, 1, 0, 3, 1) + (-243) * mn(p, 0, 0, 4, 0, 0, 4, 2) + (729) * mn(p, 0, 0, 4, 0, 0, 4, 0));
    assert(pp10 * q == ((((((81) * mn(p, 4, 0, 0, 4, 0, 0, 0) + ((-162) * mn(p, 4, 0, 0, 3, 0, 1, 1) + (81) * mn(p, 4, 0, 0, 2, 0, 2, 2))) + ((162) * mn(p, 4, 0, 0, 2, 0, 2, 0) + ((-162) * mn(p, 4, 0, 0, 1, 0, 3, 1) + (81) * mn(p, 4, 0, 0, 0, 0, 4, 0)))) + (((-162) * mn(p, 3, 0, 1, 4, 0, 0, 1) + ((162) * mn(p, 3, 0, 1, 3, 0, 1, 2) + (648) * mn(p, 3, 0, 1, 3, 0, 1, 0))) + ((-972) * mn(p, 3, 0, 1, 2, 0, 2, 1) + ((162) * mn(p, 3, 0, 1, 1, 0, 3, 2) + (648) * mn(p, 3, 0, 1, 1, 0, 3, 0))))) + ((((-162) * mn(p, 3, 0, 1, 0, 0, 4, 1) + ((-18) * mn(p, 2, 2, 0, 2, 2, 0, 0) + (18) * mn(p, 2, 2, 0, 1, 2, 1, 1))) + ((-18) * mn(p, 2, 2, 0, 0, 2, 2, 0) + ((81) * mn(p, 2, 0, 2, 4, 0, 0, 2) + (162) * mn(p, 2, 0, 2, 4, 0, 0, 0)))) + (((-972) * mn(p, 2, 0, 2, 3, 0, 1, 1) + ((486) * mn(p, 2, 0, 2, 2, 0, 2, 2) + (972) * mn(p, 2, 0, 2, 2, 0, 2, 0))) + (((-162) * mn(p, 2, 0, 2, 1, 0, 3, 3) + (-324) * mn(p, 2, 0, 2, 1, 0, 3, 1)) + ((243) * mn(p, 2, 0, 2, 0, 0, 4, 2) + (-486) * mn(p, 2, 0, 2, 0, 0, 4, 0)))))) + (((((18) * mn(p, 1, 2, 1, 2, 2, 0, 1) + ((-72) * mn(p, 1, 2, 1, 1, 2, 1, 0) + (18) * mn(p, 1, 2, 1, 0, 2, 2, 1))) + ((-162) * mn(p, 1, 0, 3, 4, 0, 0, 1) + ((162) * mn(p, 1, 0, 3, 3, 0, 1, 2) + (648) * mn(p, 1, 0, 3, 3, 0, 1, 0)))) + (((-162) * mn(p, 1, 0, 3, 2, 0, 2, 3) + ((-324) * mn(p, 1, 0, 3, 2, 0, 2, 1) + (810) * mn(p, 1, 0, 3, 1, 0, 3, 2))) + (((-1944) * mn(p, 1, 0, 3, 1, 0, 3, 0) + (-162) * mn(p, 1, 0, 3, 0, 0, 4, 3)) + ((486) * mn(p, 1, 0, 3, 0, 0, 4, 1) + (1) * mn(p, 0, 4, 0, 0, 4, 0, 0))))) + ((((-18) * mn(p, 0, 2, 2, 2, 2, 0, 0) + ((18) * mn(p, 0, 2, 2, 1, 2, 1, 1) + (-18) * mn(p, 0, 2, 2, 0, 2, 2, 2))) + ((54) * mn(p, 0, 2, 2, 0, 2, 2, 0) + ((81) * mn(p, 0, 0, 4, 4, 0, 0, 0) + (-162) * mn(p, 0, 0, 4, 3, 0, 1, 1)))) + (((243) * mn(p, 0, 0, 4, 2, 0, 2, 2) + ((-486) * mn(p, 0, 0, 4, 2, 0, 2, 0) + (-162) * mn(p, 0, 0, 4, 1, 0, 3, 3))) + (((486) * mn(p, 0, 0, 4, 1, 0, 3, 1) + (81) * mn(p, 0, 0, 4, 0, 0, 4, 4)) + ((-486) * mn(p, 0, 0, 4, 0, 0, 4, 2) + (729) * mn(p, 0, 0, 4, 0, 0, 4, 0))))))));
    assert(pp10 == ((((-9) * mn(p, 2, 0, 0, 2, 0, 0, 0) + (9) * mn(p, 2, 0, 0, 1, 0, 1, 1)) + ((-9) * mn(p, 2, 0, 0, 0, 0, 2, 0) + ((9) * mn(p, 1, 0, 1, 2, 0, 0, 1) + (-36) * mn(p, 1, 0, 1, 1, 0, 1, 0)))) + (((9) * mn(p, 1, 0, 1, 0, 0, 2, 1) + ((1) * mn(p, 0, 2, 0, 0, 2, 0, 0) + (-9) * mn(p, 0, 0, 2, 2, 0, 0, 0))) + ((9) * mn(p, 0, 0, 2, 1, 0, 1, 1) + ((-9) * mn(p, 0, 0, 2, 0, 0, 2, 2) + (27) * mn(p, 0, 0, 2, 0, 0, 2, 0))))));
    assert(q == ((((-9) * mn(p, 2, 0, 0, 2, 0, 0, 0) + (9) * mn(p, 2, 0, 0, 1, 0, 1, 1)) + ((-9) * mn(p, 2, 0, 0, 0, 0, 2, 0) + ((9) * mn(p, 1, 0, 1, 2, 0, 0, 1) + (-36) * mn(p, 1, 0, 1, 1, 0, 1, 0)))) + (((9) * mn(p, 1, 0, 1, 0, 0, 2, 1) + ((1) * mn(p, 0, 2, 0, 0, 2, 0, 0) + (-9) * mn(p, 0, 0, 2, 2, 0, 0, 0))) + ((9) * mn(p, 0, 0, 2, 1, 0, 1, 1) + ((-9) * mn(p, 0, 0, 2, 0, 0, 2, 2) + (27) * mn(p, 0, 0, 2, 0, 0, 2, 0))))));
}

#[verifier::rlimit(100)]
proof fn acb_prod2(p: Pt)
    ensures
        (((((((81) * mn(p, 4, 0, 0, 4, 0, 0, 0) + ((-162) * mn(p, 4, 0, 0, 3, 0, 1, 1) + (81) * mn(p, 4, 0, 0, 2, 0, 2, 2))) + ((162) * mn(p, 4, 0, 0, 2, 0, 2, 0) + ((-162) * mn(p, 4, 0, 0, 1, 0, 3, 1) + (81) * mn(p, 4, 0, 0, 0, 0, 4, 0)))) + (((-162) * mn(p, 3, 0, 1, 4, 0, 0, 1) + ((162) * mn(p, 3, 0, 1, 3, 0, 1, 2) + (648) * mn(p, 3, 0, 1, 3, 0, 1, 0))) + ((-972) * mn(p, 3, 0, 1, 2, 0, 2, 1) + ((162) * mn(p, 3, 0, 1, 1, 0, 3, 2) + (648) * mn(p, 3, 0, 1, 1, 0, 3, 0))))) + ((((-162) * mn(p, 3, 0, 1, 0, 0, 4, 1) + ((-18) * mn(p, 2, 2, 0, 2, 2, 0, 0) + (18) * mn(p, 2, 2, 0, 1, 2, 1, 1))) + ((-18) * mn(p, 2, 2, 0, 0, 2, 2, 0) + ((81) * mn(p, 2, 0, 2, 4, 0, 0, 2) + (162) * mn(p, 2, 0, 2, 4, 0, 0, 0)))) + (((-972) * mn(p, 2, 0, 2, 3, 0, 1, 1) + ((486) * mn(p, 2, 0, 2, 2, 0, 2, 2) + (972) * mn(p, 2, 0, 2, 2, 0, 2, 0))) + (((-162) * mn(p, 2, 0, 2, 1, 0, 3, 3) + (-324) * mn(p, 2, 0, 2, 1, 0, 3, 1)) + ((243) * mn(p, 2, 0, 2, 0, 0, 4, 2) + (-486) * mn(p, 2, 0, 2, 0, 0, 4, 0)))))) + (((((18) * mn(p, 1, 2, 1, 2, 2, 0, 1) + ((-72) * mn(p, 1, 2, 1, 1, 2, 1, 0) + (18) * mn(p, 1, 2, 1, 0, 2, 2, 1))) + ((-162) * mn(p, 1, 0, 3, 4, 0, 0, 1) + ((162) * mn(p, 1, 0, 3, 3, 0, 1, 2) + (648) * mn(p, 1, 0, 3, 3, 0, 1, 0)))) + (((-162) * mn(p, 1, 0, 3, 2, 0, 2, 3) + ((-324) * mn(p, 1, 0, 3, 2, 0, 2, 1) + (810) * mn(p, 1, 0, 3, 1, 0, 3, 2))) + (((-1944) * mn(p, 1, 0, 3, 1, 0, 3, 0) + (-162) * mn(p, 1, 0, 3, 0, 0, 4, 3)) + ((486) * mn(p, 1, 0, 3, 0, 0, 4, 1) + (1) * mn(p, 0, 4, 0, 0, 4, 0, 0))))) + ((((-18) * mn(p, 0, 2, 2, 2, 2, 0, 0) + ((18) * mn(p, 0, 2, 2, 1, 2, 1, 1) + (-18) * mn(p, 0, 2, 2, 0, 2, 2, 2))) + ((54) * mn(p, 0, 2, 2, 0, 2, 2, 0) + ((81) * mn(p, 0, 0, 4, 4, 0, 0, 0) + (-162) * mn(p, 0, 0, 4, 3, 0, 1, 1)))) + (((243) * mn(p, 0, 0, 4, 2, 0, 2, 2) + ((-486) * mn(p, 0, 0, 4, 2, 0, 2, 0) + (-162) * mn(p, 0, 0, 4, 1, 0, 3, 3))) + (((486) * mn(p, 0, 0, 4, 1, 0, 3, 1) + (81) * mn(p, 0, 0, 4, 0, 0, 4, 4)) + ((-486) * mn(p, 0, 0, 4, 0, 0, 4, 2) + (729) * mn(p, 0, 0, 4, 0, 0, 4, 0)))))))) * (((((3) * mn(p, 2, 0, 0, 1, 1, 0, 0) + (3) * mn(p, 1, 1, 0, 2, 0, 0, 0)) + ((-3) * mn(p, 1, 1, 0, 0, 0, 2, 0) + ((-6) * mn(p, 1, 0, 1, 0, 1, 1, 0) + (1) * mn(p, 0, 2, 0, 0, 1, 1, 0)))) + (((-6) * mn(p, 0, 1, 1, 1, 0, 1, 0) + (1) * mn(p, 0, 1, 1, 0, 2, 0, 0)) + ((3) * mn(p, 0, 1, 1, 0, 0, 2, 1) + ((-3) * mn(p, 0, 0, 2, 1, 1, 0, 0) + (3) * mn(p, 0, 0, 2, 0, 1, 1, 1)))))) == (((((((((243) * mn(p, 6, 0, 0, 5, 1, 0, 0) + (-486) * mn(p, 6, 0, 0, 4, 1, 1, 1)) + ((243) * mn(p, 6, 0, 0, 3, 1, 2, 2) + (486) * mn(p, 6, 0, 0, 3, 1, 2, 0))) + (((-486) * mn(p, 6, 0, 0, 2, 1, 3, 1) + (243) * mn(p, 6, 0, 0, 1, 1, 4, 0)) + ((243) * mn(p, 5, 1, 0, 6, 0, 0, 0) + ((-486) * mn(p, 5, 1, 0, 5, 0, 1, 1) + (243) * mn(p, 5, 1, 0, 4, 0, 2, 2))))) + ((((243) * mn(p, 5, 1, 0, 4, 0, 2, 0) + (-243) * mn(p, 5, 1, 0, 2, 0, 4, 2)) + ((-243) * mn(p, 5, 1, 0, 2, 0, 4, 0) + (486) * mn(p, 5, 1, 0, 1, 0, 5, 1))) + (((-243) * mn(p, 5, 1, 0, 0, 0, 6, 0) + (-486) * mn(p, 5, 0, 1, 5, 1, 0, 1)) + ((486) * mn(p, 5, 0, 1, 4, 1, 1, 2) + ((1458) * mn(p, 5, 0, 1, 4, 1, 1, 0) + (-1944) * mn(p, 5, 0, 1, 3, 1, 2, 1)))))) + (((((972) * mn(p, 5, 0, 1, 2, 1, 3, 0) + (486) * mn(p, 5, 0, 1, 1, 1, 4, 1)) + ((-486) * mn(p, 5, 0, 1, 0, 1, 5, 0) + (81) * mn(p, 4, 2, 0, 4, 1, 1, 0))) + (((-54) * mn(p, 4, 2, 0, 3, 3, 0, 0) + (-162) * mn(p, 4, 2, 0, 3, 1, 2, 1)) + ((54) * mn(p, 4, 2, 0, 2, 3, 1, 1) + ((81) * mn(p, 4, 2, 0, 2, 1, 3, 2) + (162) * mn(p, 4, 2, 0, 2, 1, 3, 0))))) + ((((-54) * mn(p, 4, 2, 0, 1, 3, 2, 0) + (-162) * mn(p, 4, 2, 0, 1, 1, 4, 1)) + ((81) * mn(p, 4, 2, 0, 0, 1, 5, 0) + (-486) * mn(p, 4, 1, 1, 6, 0, 0, 1))) + (((486) * mn(p, 4, 1, 1, 5, 0, 1, 2) + (1458) * mn(p, 4, 1, 1, 5, 0, 1, 0)) + ((81) * mn(p, 4, 1, 1, 4, 2, 0, 0) + ((-1215) * mn(p, 4, 1, 1, 4, 0, 2, 1) + (-162) * mn(p, 4, 1, 1, 3, 2, 1, 1))))))) + ((((((-972) * mn(p, 4, 1, 1, 3, 0, 3, 2) + (-972) * mn(p, 4, 1, 1, 3, 0, 3, 0)) + ((81) * mn(p, 4, 1, 1, 2, 2, 2, 2) + (162) * mn(p, 4, 1, 1, 2, 2, 2, 0))) + (((243) * mn(p, 4, 1, 1, 2, 0, 4, 3) + (3888) * mn(p, 4, 1, 1, 2, 0, 4, 1)) + ((-162) * mn(p, 4, 1, 1, 1, 2, 3, 1) + ((-972) * mn(p, 4, 1, 1, 1, 0, 5, 2) + (-2430) * mn(p, 4, 1, 1, 1, 0, 5, 0))))) + ((((81) * mn(p, 4, 1, 1, 0, 2, 4, 0) + (729) * mn(p, 4, 1, 1, 0, 0, 6, 1)) + ((243) * mn(p, 4, 0, 2, 5, 1, 0, 2) + (243) * mn(p, 4, 0, 2, 5, 1, 0, 0))) + (((-1215) * mn(p, 4, 0, 2, 4, 1, 1, 1) + (-243) * mn(p, 4, 0, 2, 3, 1, 2, 2)) + ((-1458) * mn(p, 4, 0, 2, 3, 1, 2, 0) + ((-243) * mn(p, 4, 0, 2, 2, 1, 3, 3) + (5832) * mn(p, 4, 0, 2, 2, 1, 3, 1)))))) + (((((-729) * mn(p, 4, 0, 2, 1, 1, 4, 2) + (-5589) * mn(p, 4, 0, 2, 1, 1, 4, 0)) + ((1215) * mn(p, 4, 0, 2, 0, 1, 5, 1) + (-54) * mn(p, 3, 3, 0, 4, 2, 0, 0))) + (((54) * mn(p, 3, 3, 0, 3, 2, 1, 1) + (-54) * mn(p, 3, 3, 0, 1, 2, 3, 1)) + ((54) * mn(p, 3, 3, 0, 0, 2, 4, 0) + ((-162) * mn(p, 3, 2, 1, 4, 1, 1, 1) + (54) * mn(p, 3, 2, 1, 3, 3, 0, 1))))) + ((((162) * mn(p, 3, 2, 1, 3, 1, 2, 2) + (648) * mn(p, 3, 2, 1, 3, 1, 2, 0)) + ((-108) * mn(p, 3, 2, 1, 2, 3, 1, 0) + ((-972) * mn(p, 3, 2, 1, 2, 1, 3, 1) + (-54) * mn(p, 3, 2, 1, 1, 3, 2, 1)))) + (((162) * mn(p, 3, 2, 1, 1, 1, 4, 2) + (648) * mn(p, 3, 2, 1, 1, 1, 4, 0)) + ((108) * mn(p, 3, 2, 1, 0, 3, 3, 0) + ((-162) * mn(p, 3, 2, 1, 0, 1, 5, 1) + (243) * mn(p, 3, 1, 2, 6, 0, 0, 2)))))))) + (((((((486) * mn(p, 3, 1, 2, 6, 0, 0, 0) + (-1944) * mn(p, 3, 1, 2, 5, 0, 1, 1)) + ((-162) * mn(p, 3, 1, 2, 4, 2, 0, 1) + (-243) * mn(p, 3, 1, 2, 4, 0, 2, 2))) + (((-1458) * mn(p, 3, 1, 2, 4, 0, 2, 0) + (162) * mn(p, 3, 1, 2, 3, 2, 1, 2)) + ((648) * mn(p, 3, 1, 2, 3, 2, 1, 0) + ((9720) * mn(p, 3, 1, 2, 3, 0, 3, 1) + (-972) * mn(p, 3, 1, 2, 2, 2, 2, 1))))) + ((((-4617) * mn(p, 3, 1, 2, 2, 0, 4, 2) + (-8262) * mn(p, 3, 1, 2, 2, 0, 4, 0)) + ((162) * mn(p, 3, 1, 2, 1, 2, 3, 2) + (648) * mn(p, 3, 1, 2, 1, 2, 3, 0))) + (((972) * mn(p, 3, 1, 2, 1, 0, 5, 3) + (3888) * mn(p, 3, 1, 2, 1, 0, 5, 1)) + ((-162) * mn(p, 3, 1, 2, 0, 2, 4, 1) + ((-1215) * mn(p, 3, 1, 2, 0, 0, 6, 2) + (1458) * mn(p, 3, 1, 2, 0, 0, 6, 0)))))) + (((((-972) * mn(p, 3, 0, 3, 4, 1, 1, 2) + (-972) * mn(p, 3, 0, 3, 4, 1, 1, 0)) + ((9720) * mn(p, 3, 0, 3, 3, 1, 2, 1) + (-3888) * mn(p, 3, 0, 3, 2, 1, 3, 2))) + (((-13608) * mn(p, 3, 0, 3, 2, 1, 3, 0) + (972) * mn(p, 3, 0, 3, 1, 1, 4, 3)) + ((5832) * mn(p, 3, 0, 3, 1, 1, 4, 1) + ((-1944) * mn(p, 3, 0, 3, 0, 1, 5, 2) + (2916) * mn(p, 3, 0, 3, 0, 1, 5, 0))))) + ((((-18) * mn(p, 2, 4, 0, 2, 3, 1, 0) + (3) * mn(p, 2, 4, 0, 1, 5, 0, 0)) + ((18) * mn(p, 2, 4, 0, 1, 3, 2, 1) + ((-18) * mn(p, 2, 4, 0, 0, 3, 3, 0) + (54) * mn(p, 2, 3, 1, 4, 2, 0, 1)))) + (((-108) * mn(p, 2, 3, 1, 3, 2, 1, 0) + (-18) * mn(p, 2, 3, 1, 2, 4, 0, 0)) + ((-162) * mn(p, 2, 3, 1, 2, 2, 2, 1) + ((18) * mn(p, 2, 3, 1, 1, 4, 1, 1) + (54) * mn(p, 2, 3, 1, 1, 2, 3, 2))))))) + ((((((324) * mn(p, 2, 3, 1, 1, 2, 3, 0) + (-18) * mn(p, 2, 3, 1, 0, 4, 2, 0)) + ((-108) * mn(p, 2, 3, 1, 0, 2, 4, 1) + (81) * mn(p, 2, 2, 2, 4, 1, 1, 2))) + (((162) * mn(p, 2, 2, 2, 4, 1, 1, 0) + (-972) * mn(p, 2, 2, 2, 3, 1, 2, 1)) + ((-162) * mn(p, 2, 2, 2, 2, 3, 1, 1) + ((486) * mn(p, 2, 2, 2, 2, 1, 3, 2) + (972) * mn(p, 2, 2, 2, 2, 1, 3, 0))))) + ((((648) * mn(p, 2, 2, 2, 1, 3, 2, 0) + (-162) * mn(p, 2, 2, 2, 1, 1, 4, 3)) + ((-324) * mn(p, 2, 2, 2, 1, 1, 4, 1) + (-162) * mn(p, 2, 2, 2, 0, 3, 3, 1))) + (((243) * mn(p, 2, 2, 2, 0, 1, 5, 2) + (-486) * mn(p, 2, 2, 2, 0, 1, 5, 0)) + ((-486) * mn(p, 2, 1, 3, 6, 0, 0, 1) + ((972) * mn(p, 2, 1, 3, 5, 0, 1, 0) + (81) * mn(p, 2, 1, 3, 4, 2, 0, 2)))))) + (((((162) * mn(p, 2, 1, 3, 4, 2, 0, 0) + (-243) * mn(p, 2, 1, 3, 4, 0, 2, 3)) + ((5832) * mn(p, 2, 1, 3, 4, 0, 2, 1) + (-972) * mn(p, 2, 1, 3, 3, 2, 1, 1))) + (((-3888) * mn(p, 2, 1, 3, 3, 0, 3, 2) + (-13608) * mn(p, 2, 1, 3, 3, 0, 3, 0)) + ((486) * mn(p, 2, 1, 3, 2, 2, 2, 2) + ((972) * mn(p, 2, 1, 3, 2, 2, 2, 0) + (2430) * mn(p, 2, 1, 3, 2, 0, 4, 3))))) + ((((7290) * mn(p, 2, 1, 3, 2, 0, 4, 1) + (-162) * mn(p, 2, 1, 3, 1, 2, 3, 3)) + ((-324) * mn(p, 2, 1, 3, 1, 2, 3, 1) + ((-486) * mn(p, 2, 1, 3, 1, 0, 5, 4) + (-4860) * mn(p, 2, 1, 3, 1, 0, 5, 2)))) + (((8748) * mn(p, 2, 1, 3, 1, 0, 5, 0) + (243) * mn(p, 2, 1, 3, 0, 2, 4, 2)) + ((-486) * mn(p, 2, 1, 3, 0, 2, 4, 0) + ((1215) * mn(p, 2, 1, 3, 0, 0, 6, 3) + (-2916) * mn(p, 2, 1, 3, 0, 0, 6, 1))))))))) + ((((((((-243) * mn(p, 2, 0, 4, 5, 1, 0, 2) + (-243) * mn(p, 2, 0, 4, 5, 1, 0, 0)) + ((243) * mn(p, 2, 0, 4, 4, 1, 1, 3) + (3888) * mn(p, 2, 0, 4, 4, 1, 1, 1))) + (((-4617) * mn(p, 2, 0, 4, 3, 1, 2, 2) + (-8262) * mn(p, 2, 0, 4, 3, 1, 2, 0)) + ((2430) * mn(p, 2, 0, 4, 2, 1, 3, 3) + ((7290) * mn(p, 2, 0, 4, 2, 1, 3, 1) + (-243) * mn(p, 2, 0, 4, 1, 1, 4, 4))))) + ((((-8019) * mn(p, 2, 0, 4, 1, 1, 4, 2) + (15309) * mn(p, 2, 0, 4, 1, 1, 4, 0)) + ((1701) * mn(p, 2, 0, 4, 0, 1, 5, 3) + (-4374) * mn(p, 2, 0, 4, 0, 1, 5, 1))) + (((3) * mn(p, 1, 5, 0, 2, 4, 0, 0) + (-3) * mn(p, 1, 5, 0, 0, 4, 2, 0)) + ((18) * mn(p, 1, 4, 1, 2, 3, 1, 1) + ((-72) * mn(p, 1, 4, 1, 1, 3, 2, 0) + (-6) * mn(p, 1, 4, 1, 0, 5, 1, 0)))))) + (((((18) * mn(p, 1, 4, 1, 0, 3, 3, 1) + (-54) * mn(p, 1, 3, 2, 4, 2, 0, 0)) + ((-54) * mn(p, 1, 3, 2, 3, 2, 1, 1) + (18) * mn(p, 1, 3, 2, 2, 4, 0, 1))) + (((648) * mn(p, 1, 3, 2, 2, 2, 2, 0) + (-72) * mn(p, 1, 3, 2, 1, 4, 1, 0)) + ((-378) * mn(p, 1, 3, 2, 1, 2, 3, 1) + ((18) * mn(p, 1, 3, 2, 0, 4, 2, 1) + (108) * mn(p, 1, 3, 2, 0, 2, 4, 2))))) + ((((-162) * mn(p, 1, 3, 2, 0, 2, 4, 0) + (-162) * mn(p, 1, 2, 3, 4, 1, 1, 1)) + ((-54) * mn(p, 1, 2, 3, 3, 3, 0, 1) + (162) * mn(p, 1, 2, 3, 3, 1, 2, 2))) + (((648) * mn(p, 1, 2, 3, 3, 1, 2, 0) + (54) * mn(p, 1, 2, 3, 2, 3, 1, 2)) + ((324) * mn(p, 1, 2, 3, 2, 3, 1, 0) + ((-162) * mn(p, 1, 2, 3, 2, 1, 3, 3) + (-324) * mn(p, 1, 2, 3, 2, 1, 3, 1))))))) + ((((((-378) * mn(p, 1, 2, 3, 1, 3, 2, 1) + (810) * mn(p, 1, 2, 3, 1, 1, 4, 2)) + ((-1944) * mn(p, 1, 2, 3, 1, 1, 4, 0) + (162) * mn(p, 1, 2, 3, 0, 3, 3, 2))) + (((-324) * mn(p, 1, 2, 3, 0, 3, 3, 0) + (-162) * mn(p, 1, 2, 3, 0, 1, 5, 3)) + ((486) * mn(p, 1, 2, 3, 0, 1, 5, 1) + ((243) * mn(p, 1, 1, 4, 6, 0, 0, 0) + (486) * mn(p, 1, 1, 4, 5, 0, 1, 1))))) + ((((-162) * mn(p, 1, 1, 4, 4, 2, 0, 1) + (-729) * mn(p, 1, 1, 4, 4, 0, 2, 2)) + ((-5589) * mn(p, 1, 1, 4, 4, 0, 2, 0) + (162) * mn(p, 1, 1, 4, 3, 2, 1, 2))) + (((648) * mn(p, 1, 1, 4, 3, 2, 1, 0) + (972) * mn(p, 1, 1, 4, 3, 0, 3, 3)) + ((5832) * mn(p, 1, 1, 4, 3, 0, 3, 1) + ((-162) * mn(p, 1, 1, 4, 2, 2, 2, 3) + (-324) * mn(p, 1, 1, 4, 2, 2, 2, 1)))))) + (((((-243) * mn(p, 1, 1, 4, 2, 0, 4, 4) + (-8019) * mn(p, 1, 1, 4, 2, 0, 4, 2)) + ((15309) * mn(p, 1, 1, 4, 2, 0, 4, 0) + (810) * mn(p, 1, 1, 4, 1, 2, 3, 2))) + (((-1944) * mn(p, 1, 1, 4, 1, 2, 3, 0) + (3888) * mn(p, 1, 1, 4, 1, 0, 5, 3)) + ((-10206) * mn(p, 1, 1, 4, 1, 0, 5, 1) + ((-162) * mn(p, 1, 1, 4, 0, 2, 4, 3) + (486) * mn(p, 1, 1, 4, 0, 2, 4, 1))))) + ((((-729) * mn(p, 1, 1, 4, 0, 0, 6, 4) + (2916) * mn(p, 1, 1, 4, 0, 0, 6, 2)) + ((-2187) * mn(p, 1, 1, 4, 0, 0, 6, 0) + ((486) * mn(p, 1, 0, 5, 5, 1, 0, 1) + (-972) * mn(p, 1, 0, 5, 4, 1, 1, 2)))) + (((-2430) * mn(p, 1, 0, 5, 4, 1, 1, 0) + (972) * mn(p, 1, 0, 5, 3, 1, 2, 3)) + ((3888) * mn(p, 1, 0, 5, 3, 1, 2, 1) + ((-486) * mn(p, 1, 0, 5, 2, 1, 3, 4) + (-4860) * mn(p, 1, 0, 5, 2, 1, 3, 2)))))))) + (((((((8748) * mn(p, 1, 0, 5, 2, 1, 3, 0) + (3888) * mn(p, 1, 0, 5, 1, 1, 4, 3)) + ((-10206) * mn(p, 1, 0, 5, 1, 1, 4, 1) + (-972) * mn(p, 1, 0, 5, 0, 1, 5, 4))) + (((4374) * mn(p, 1, 0, 5, 0, 1, 5, 2) + (-4374) * mn(p, 1, 0, 5, 0, 1, 5, 0)) + ((1) * mn(p, 0, 6, 0, 0, 5, 1, 0) + ((-6) * mn(p, 0, 5, 1, 1, 4, 1, 0) + (1) * mn(p, 0, 5, 1, 0, 6, 0, 0))))) + ((((3) * mn(p, 0, 5, 1, 0, 4, 2, 1) + (-18) * mn(p, 0, 4, 2, 2, 3, 1, 0)) + ((-3) * mn(p, 0, 4, 2, 1, 5, 0, 0) + (18) * mn(p, 0, 4, 2, 1, 3, 2, 1))) + (((3) * mn(p, 0, 4, 2, 0, 5, 1, 1) + (-18) * mn(p, 0, 4, 2, 0, 3, 3, 2)) + ((54) * mn(p, 0, 4, 2, 0, 3, 3, 0) + ((108) * mn(p, 0, 3, 3, 3, 2, 1, 0) + (-18) * mn(p, 0, 3, 3, 2, 4, 0, 0)))))) + (((((-162) * mn(p, 0, 3, 3, 2, 2, 2, 1) + (18) * mn(p, 0, 3, 3, 1, 4, 1, 1)) + ((162) * mn(p, 0, 3, 3, 1, 2, 3, 2) + (-324) * mn(p, 0, 3, 3, 1, 2, 3, 0))) + (((-18) * mn(p, 0, 3, 3, 0, 4, 2, 2) + (54) * mn(p, 0, 3, 3, 0, 4, 2, 0)) + ((-54) * mn(p, 0, 3, 3, 0, 2, 4, 3) + ((162) * mn(p, 0, 3, 3, 0, 2, 4, 1) + (81) * mn(p, 0, 2, 4, 4, 1, 1, 0))))) + ((((54) * mn(p, 0, 2, 4, 3, 3, 0, 0) + (-162) * mn(p, 0, 2, 4, 3, 1, 2, 1)) + ((-108) * mn(p, 0, 2, 4, 2, 3, 1, 1) + ((243) * mn(p, 0, 2, 4, 2, 1, 3, 2) + (-486) * mn(p, 0, 2, 4, 2, 1, 3, 0)))) + (((108) * mn(p, 0, 2, 4, 1, 3, 2, 2) + (-162) * mn(p, 0, 2, 4, 1, 3, 2, 0)) + ((-162) * mn(p, 0, 2, 4, 1, 1, 4, 3) + ((486) * mn(p, 0, 2, 4, 1, 1, 4, 1) + (-54) * mn(p, 0, 2, 4, 0, 3, 3, 3))))))) + ((((((162) * mn(p, 0, 2, 4, 0, 3, 3, 1) + (81) * mn(p, 0, 2, 4, 0, 1, 5, 4)) + ((-486) * mn(p, 0, 2, 4, 0, 1, 5, 2) + (729) * mn(p, 0, 2, 4, 0, 1, 5, 0))) + (((-486) * mn(p, 0, 1, 5, 5, 0, 1, 0) + (81) * mn(p, 0, 1, 5, 4, 2, 0, 0)) + ((1215) * mn(p, 0, 1, 5, 4, 0, 2, 1) + ((-162) * mn(p, 0, 1, 5, 3, 2, 1, 1) + (-1944) * mn(p, 0, 1, 5, 3, 0, 3, 2))))) + ((((2916) * mn(p, 0, 1, 5, 3, 0, 3, 0) + (243) * mn(p, 0, 1, 5, 2, 2, 2, 2)) + ((-486) * mn(p, 0, 1, 5, 2, 2, 2, 0) + (1701) * mn(p, 0, 1, 5, 2, 0, 4, 3))) + (((-4374) * mn(p, 0, 1, 5, 2, 0, 4, 1) + (-162) * mn(p, 0, 1, 5, 1, 2, 3, 3)) + ((486) * mn(p, 0, 1, 5, 1, 2, 3, 1) + ((-972) * mn(p, 0, 1, 5, 1, 0, 5, 4) + (4374) * mn(p, 0, 1, 5, 1, 0, 5, 2)))))) + (((((-4374) * mn(p, 0, 1, 5, 1, 0, 5, 0) + (81) * mn(p, 0, 1, 5, 0, 2, 4, 4)) + ((-486) * mn(p, 0, 1, 5, 0, 2, 4, 2) + (729) * mn(p, 0, 1, 5, 0, 2, 4, 0))) + (((243) * mn(p, 0, 1, 5, 0, 0, 6, 5) + (-1458) * mn(p, 0, 1, 5, 0, 0, 6, 3)) + ((2187) * mn(p, 0, 1, 5, 0, 0, 6, 1) + ((-243) * mn(p, 0, 0, 6, 5, 1, 0, 0) + (729) * mn(p, 0, 0, 6, 4, 1, 1, 1))))) + ((((-1215) * mn(p, 0, 0, 6, 3, 1, 2, 2) + (1458) * mn(p, 0, 0, 6, 3, 1, 2, 0)) + ((1215) * mn(p, 0, 0, 6, 2, 1, 3, 3) + ((-2916) * mn(p, 0, 0, 6, 2, 1, 3, 1) + (-729) * mn(p, 0, 0, 6, 1, 1, 4, 4)))) + (((2916) * mn(p, 0, 0, 6, 1, 1, 4, 2) + (-2187) * mn(p, 0, 0, 6, 1, 1, 4, 0)) + ((243) * mn(p, 0, 0, 6, 0, 1, 5, 5) + ((-1458) * mn(p, 0, 0, 6, 0, 1, 5, 3) + (2187) * mn(p, 0, 0, 6, 0, 1, 5, 1)))))))))),
{
    let c0 = ((((((81) * mn(p, 4, 0, 0, 4, 0, 0, 0) + (-162) * mn(p, 4, 0, 0, 3, 0, 1, 1)) + ((81) * mn(p, 4, 0, 0, 2, 0, 2, 2) + (162) * mn(p, 4, 0, 0, 2, 0, 2, 0))) + (((-162) * mn(p, 4, 0, 0, 1, 0, 3, 1) + (81) * mn(p, 4, 0, 0, 0, 0, 4, 0)) + ((-162) * mn(p, 3, 0, 1, 4, 0, 0, 1) + (162) * mn(p, 3, 0, 1, 3, 0, 1, 2)))) + ((((648) * mn(p, 3, 0, 1, 3, 0, 1, 0) + (-972) * mn(p, 3, 0, 1, 2, 0, 2, 1)) + ((162) * mn(p, 3, 0, 1, 1, 0, 3, 2) + (648) * mn(p, 3, 0, 1, 1, 0, 3, 0))) + (((-162) * mn(p, 3, 0, 1, 0, 0, 4, 1) + (-18) * mn(p, 2, 2, 0, 2, 2, 0, 0)) + ((18) * mn(p, 2, 2, 0, 1, 2, 1, 1) + (-18) * mn(p, 2, 2, 0, 0, 2, 2, 0))))) + (((((81) * mn(p, 2, 0, 2, 4, 0, 0, 2) + (162) * mn(p, 2, 0, 2, 4, 0, 0, 0)) + ((-972) * mn(p, 2, 0, 2, 3, 0, 1, 1) + (486) * mn(p, 2, 0, 2, 2, 0, 2, 2))) + (((972) * mn(p, 2, 0, 2, 2, 0, 2, 0) + (-162) * mn(p, 2, 0, 2, 1, 0, 3, 3)) + ((-324) * mn(p, 2, 0, 2, 1, 0, 3, 1) + (243) * mn(p, 2, 0, 2, 0, 0, 4, 2)))) + ((((-486) * mn(p, 2, 0, 2, 0, 0, 4, 0) + (18) * mn(p, 1, 2, 1, 2, 2, 0, 1)) + ((-72) * mn(p, 1, 2, 1, 1, 2, 1, 0) + (18) * mn(p, 1, 2, 1, 0, 2, 2, 1))) + (((-162) * mn(p, 1, 0, 3, 4, 0, 0, 1) + (162) * mn(p, 1, 0, 3, 3, 0, 1, 2)) + ((648) * mn(p, 1, 0, 3, 3, 0, 1, 0) + (-162) * mn(p, 1, 0, 3, 2, 0, 2, 3))))));
    let c1 = (((((-324) * mn(p, 1, 0, 3, 2, 0, 2, 1) + (810) * mn(p, 1, 0, 3, 1, 0, 3, 2)) + ((-1944) * mn(p, 1, 0, 3, 1, 0, 3, 0) + (-162) * mn(p, 1, 0, 3, 0, 0, 4, 3))) + (((486) * mn(p, 1, 0, 3, 0, 0, 4, 1) + (1) * mn(p, 0, 4, 0, 0, 4, 0, 0)) + ((-18) * mn(p, 0, 2, 2, 2, 2, 0, 0) + ((18) * mn(p, 0, 2, 2, 1, 2, 1, 1) + (-18) * mn(p, 0, 2, 2, 0, 2, 2, 2))))) + ((((54) * mn(p, 0, 2, 2, 0, 2, 2, 0) + (81) * mn(p, 0, 0, 4, 4, 0, 0, 0)) + ((-162) * mn(p, 0, 0, 4, 3, 0, 1, 1) + ((243) * mn(p, 0, 0, 4, 2, 0, 2, 2) + (-486) * mn(p, 0, 0, 4, 2, 0, 2, 0)))) + (((-162) * mn(p, 0, 0, 4, 1, 0, 3, 3) + (486) * mn(p, 0, 0, 4, 1, 0, 3, 1)) + ((81) * mn(p, 0, 0, 4, 0, 0, 4, 4) + ((-486) * mn(p, 0, 0, 4, 0, 0, 4, 2) + (729) * mn(p, 0, 0, 4, 0, 0, 4, 0))))));
    let cc0 = c0;
    let cc1 = cc0 + c1;
    assert(cc1 == ((((((81) * mn(p, 4, 0, 0, 4, 0, 0, 0) + ((-162) * mn(p, 4, 0, 0, 3, 0, 1, 1) + (81) * mn(p, 4, 0, 0, 2, 0, 2, 2))) + ((162) * mn(p, 4, 0, 0, 2, 0, 2, 0) + ((-162) * mn(p, 4, 0, 0, 1, 0, 3, 1) + (81) * mn(p, 4, 0, 0, 0, 0, 4, 0)))) + (((-162) * mn(p, 3, 0, 1, 4, 0, 0, 1) + ((162) * mn(p, 3, 0, 1, 3, 0, 1, 2) + (648) * mn(p, 3, 0, 1, 3, 0, 1, 0))) + ((-972) * mn(p, 3, 0, 1, 2, 0, 2, 1) + ((162) * mn(p, 3, 0, 1, 1, 0, 3, 2) + (648) * mn(p, 3, 0, 1, 1, 0, 3, 0))))) + ((((-162) * mn(p, 3, 0, 1, 0, 0, 4, 1) + ((-18) * mn(p, 2, 2, 0, 2, 2, 0, 0) + (18) * mn(p, 2, 2, 0, 1, 2, 1, 1))) + ((-18) * mn(p, 2, 2, 0, 0, 2, 2, 0) + ((81) * mn(p, 2, 0, 2, 4, 0, 0, 2) + (162) * mn(p, 2, 0, 2, 4, 0, 0, 0)))) + (((-972) * mn(p, 2, 0, 2, 3, 0, 1, 1) + ((486) * mn(p, 2, 0, 2, 2, 0, 2, 2) + (972) * mn(p, 2, 0, 2, 2, 0, 2, 0))) + (((-162) * mn(p, 2, 0, 2, 1, 0, 3, 3) + (-324) * mn(p, 2, 0, 2, 1, 0, 3, 1)) + ((243) * mn(p, 2, 0, 2, 0, 0, 4, 2) + (-486) * mn(p, 2, 0, 2, 0, 0, 4, 0)))))) + (((((18) * mn(p, 1, 2, 1, 2, 2, 0, 1) + ((-72) * mn(p, 1, 2, 1, 1, 2, 1, 0) + (18) * mn(p, 1, 2, 1, 0, 2, 2, 1))) + ((-162) * mn(p, 1, 0, 3, 4, 0, 0, 1) + ((162) * mn(p, 1, 0, 3, 3, 0, 1, 2) + (648) * mn(p, 1, 0, 3, 3, 0, 1, 0)))) + (((-162) * mn(p, 1, 0, 3, 2, 0, 2, 3) + ((-324) * mn(p, 1, 0, 3, 2, 0, 2, 1) + (810) * mn(p, 1, 0, 3, 1, 0, 3, 2))) + (((-1944) * mn(p, 1, 0, 3, 1, 0, 3, 0) + (-162) * mn(p, 1, 0, 3, 0, 0, 4, 3)) + ((486) * mn(p, 1, 0, 3, 0, 0, 4, 1) + (1) * mn(p, 0, 4, 0, 0, 4, 0, 0))))) + ((((-18) * mn(p, 0, 2, 2, 2, 2, 0, 0) + ((18) * mn(p, 0, 2, 2, 1, 2, 1, 1) + (-18) * mn(p, 0, 2, 2, 0, 2, 2, 2))) + ((54) * mn(p, 0, 2, 2, 0, 2, 2, 0) + ((81) * mn(p, 0, 0, 4, 4, 0, 0, 0) + (-162) * mn(p, 0, 0, 4, 3, 0, 1, 1)))) + (((243) * mn(p, 0, 0, 4, 2, 0, 2, 2) + ((-486) * mn(p, 0, 0, 4, 2, 0, 2, 0) + (-162) * mn(p, 0, 0, 4, 1, 0, 3, 3))) + (((486) * mn(p, 0, 0, 4, 1, 0, 3, 1) + (81) * mn(p, 0, 0, 4, 0, 0, 4, 4)) + ((-486) * mn(p, 0, 0, 4, 0, 0, 4, 2) + (729) * mn(p, 0, 0, 4, 0, 0, 4, 0))))))));
    let q = ((((3) * mn(p, 2, 0, 0, 1, 1, 0, 0) + (3) * mn(p, 1, 1, 0, 2, 0, 0, 0)) + ((-3) * mn(p, 1, 1, 0, 0, 0, 2, 0) + ((-6) * mn(p, 1, 0, 1, 0, 1, 1, 0) + (1) * mn(p, 0, 2, 0, 0, 1, 1, 0)))) + (((-6) * mn(p, 0, 1, 1, 1, 0, 1, 0) + (1) * mn(p, 0, 1, 1, 0, 2, 0, 0)) + ((3) * mn(p, 0, 1, 1, 0, 0, 2, 1) + ((-3) * mn(p, 0, 0, 2, 1, 1, 0, 0) + (3) * mn(p, 0, 0, 2, 0, 1, 1, 1)))));
    lemma_mul_is_distributive_add_other_way(q, cc0, c1);
    acb_prod2_c0(p);
    assert(c0 * q == ((((((((243) * mn(p, 6, 0, 0, 5, 1, 0, 0) + ((-486) * mn(p, 6, 0, 0, 4, 1, 1, 1) + (243) * mn(p, 6, 0, 0, 3, 1, 2, 2))) + ((486) * mn(p, 6, 0, 0, 3, 1, 2, 0) + ((-486) * mn(p, 6, 0, 0, 2, 1, 3, 1) + (243) * mn(p, 6, 0, 0, 1, 1, 4, 0)))) + (((243) * mn(p, 5, 1, 0, 6, 0, 0, 0) + ((-486) * mn(p, 5, 1, 0, 5, 0, 1, 1) + (243) * mn(p, 5, 1, 0, 4, 0, 2, 2))) + ((243) * mn(p, 5, 1, 0, 4, 0, 2, 0) + ((-243) * mn(p, 5, 1, 0, 2, 0, 4, 2) + (-243) * mn(p, 5, 1, 0, 2, 0, 4, 0))))) + ((((486) * mn(p, 5, 1, 0, 1, 0, 5, 1) + ((-243) * mn(p, 5, 1, 0, 0, 0, 6, 0) + (-486) * mn(p, 5, 0, 1, 5, 1, 0, 1))) + ((486) * mn(p, 5, 0, 1, 4, 1, 1, 2) + ((1458) * mn(p, 5, 0, 1, 4, 1, 1, 0) + (-1944) * mn(p, 5, 0, 1, 3, 1, 2, 1)))) + (((972) * mn(p, 5, 0, 1, 2, 1, 3, 0) + ((486) * mn(p, 5, 0, 1, 1, 1, 4, 1) + (-486) * mn(p, 5, 0, 1, 0, 1, 5, 0))) + ((81) * mn(p, 4, 2, 0, 4, 1, 1, 0) + ((-54) * mn(p, 4, 2, 0, 3, 3, 0, 0) + (-162) * mn(p, 4, 2, 0, 3, 1, 2, 1)))))) + (((((54) * mn(p, 4, 2, 0, 2, 3, 1, 1) + ((81) * mn(p, 4, 2, 0, 2, 1, 3, 2) + (162) * mn(p, 4, 2, 0, 2, 1, 3, 0))) + ((-54) * mn(p, 4, 2, 0, 1, 3, 2, 0) + ((-162) * mn(p, 4, 2, 0, 1, 1, 4, 1) + (81) * mn(p, 4, 2, 0, 0, 1, 5, 0)))) + (((-486) * mn(p, 4, 1, 1, 6, 0, 0, 1) + ((486) * mn(p, 4, 1, 1, 5, 0, 1, 2) + (1458) * mn(p, 4, 1, 1, 5, 0, 1, 0))) + ((81) * mn(p, 4, 1, 1, 4, 2, 0, 0) + ((-1215) * mn(p, 4, 1, 1, 4, 0, 2, 1) + (-162) * mn(p, 4, 1, 1, 3, 2, 1, 1))))) + ((((-972) * mn(p, 4, 1, 1, 3, 0, 3, 2) + ((-972) * mn(p, 4, 1, 1, 3, 0, 3, 0) + (81) * mn(p, 4, 1, 1, 2, 2, 2, 2))) + ((162) * mn(p, 4, 1, 1, 2, 2, 2, 0) + ((243) * mn(p, 4, 1, 1, 2, 0, 4, 3) + (3888) * mn(p, 4, 1, 1, 2, 0, 4, 1)))) + (((-162) * mn(p, 4, 1, 1, 1, 2, 3, 1) + ((-972) * mn(p, 4, 1, 1, 1, 0, 5, 2) + (-2430) * mn(p, 4, 1, 1, 1, 0, 5, 0))) + (((81) * mn(p, 4, 1, 1, 0, 2, 4, 0) + (729) * mn(p, 4, 1, 1, 0, 0, 6, 1)) + ((243) * mn(p, 4, 0, 2, 5, 1, 0, 2) + (243) * mn(p, 4, 0, 2, 5, 1, 0, 0))))))) + ((((((-1215) * mn(p, 4, 0, 2, 4, 1, 1, 1) + ((-243) * mn(p, 4, 0, 2, 3, 1, 2, 2) + (-1458) * mn(p, 4, 0, 2, 3, 1, 2, 0))) + ((-243) * mn(p, 4, 0, 2, 2, 1, 3, 3) + ((5832) * mn(p, 4, 0, 2, 2, 1, 3, 1) + (-729) * mn(p, 4, 0, 2, 1, 1, 4, 2)))) + (((-5589) * mn(p, 4, 0, 2, 1, 1, 4, 0) + ((1215) * mn(p, 4, 0, 2, 0, 1, 5, 1) + (-54) * mn(p, 3, 3, 0, 4, 2, 0, 0))) + ((54) * mn(p, 3, 3, 0, 3, 2, 1, 1) + ((-54) * mn(p, 3, 3, 0, 1, 2, 3, 1) + (54) * mn(p, 3, 3, 0, 0, 2, 4, 0))))) + ((((-162) * mn(p, 3, 2, 1, 4, 1, 1, 1) + ((54) * mn(p, 3, 2, 1, 3, 3, 0, 1) + (162) * mn(p, 3, 2, 1, 3, 1, 2, 2))) + ((648) * mn(p, 3, 2, 1, 3, 1, 2, 0) + ((-108) * mn(p, 3, 2, 1, 2, 3, 1, 0) + (-972) * mn(p, 3, 2, 1, 2, 1, 3, 1)))) + (((-54) * mn(p, 3, 2, 1, 1, 3, 2, 1) + ((162) * mn(p, 3, 2, 1, 1, 1, 4, 2) + (648) * mn(p, 3, 2, 1, 1, 1, 4, 0))) + ((108) * mn(p, 3, 2, 1, 0, 3, 3, 0) + ((-162) * mn(p, 3, 2, 1, 0, 1, 5, 1) + (243) * mn(p, 3, 1, 2, 6, 0, 0, 2)))))) + (((((486) * mn(p, 3, 1, 2, 6, 0, 0, 0) + ((-1944) * mn(p, 3, 1, 2, 5, 0, 1, 1) + (-162) * mn(p, 3, 1, 2, 4, 2, 0, 1))) + ((-243) * mn(p, 3, 1, 2, 4, 0, 2, 2) + ((-1458) * mn(p, 3, 1, 2, 4, 0, 2, 0) + (162) * mn(p, 3, 1, 2, 3, 2, 1, 2)))) + (((648) * mn(p, 3, 1, 2, 3, 2, 1, 0) + ((9720) * mn(p, 3, 1, 2, 3, 0, 3, 1) + (-972) * mn(p, 3, 1, 2, 2, 2, 2, 1))) + ((-4617) * mn(p, 3, 1, 2, 2, 0, 4, 2) + ((-8262) * mn(p, 3, 1, 2, 2, 0, 4, 0) + (162) * mn(p, 3, 1, 2, 1, 2, 3, 2))))) + ((((648) * mn(p, 3, 1, 2, 1, 2, 3, 0) + ((972) * mn(p, 3, 1, 2, 1, 0, 5, 3) + (3888) * mn(p, 3, 1, 2, 1, 0, 5, 1))) + ((-162) * mn(p, 3, 1, 2, 0, 2, 4, 1) + ((-1215) * mn(p, 3, 1, 2, 0, 0, 6, 2) + (1458) * mn(p, 3, 1, 2, 0, 0, 6, 0)))) + (((-972) * mn(p, 3, 0, 3, 4, 1, 1, 2) + ((-972) * mn(p, 3, 0, 3, 4, 1, 1, 0) + (10692) * mn(p, 3, 0, 3, 3, 1, 2, 1))) + (((-6318) * mn(p, 3, 0, 3, 2, 1, 3, 2) + (-7776) * mn(p, 3, 0, 3, 2, 1, 3, 0)) + ((1458) * mn(p, 3, 0, 3, 1, 1, 4, 3) + (4374) * mn(p, 3, 0, 3, 1, 1, 4, 1)))))))) + (((((((-1944) * mn(p, 3, 0, 3, 0, 1, 5, 2) + ((2916) * mn(p, 3, 0, 3, 0, 1, 5, 0) + (-18) * mn(p, 2, 4, 0, 2, 3, 1, 0))) + ((18) * mn(p, 2, 4, 0, 1, 3, 2, 1) + ((-18) * mn(p, 2, 4, 0, 0, 3, 3, 0) + (54) * mn(p, 2, 3, 1, 4, 2, 0, 1)))) + (((-108) * mn(p, 2, 3, 1, 3, 2, 1, 0) + ((-18) * mn(p, 2, 3, 1, 2, 4, 0, 0) + (-162) * mn(p, 2, 3, 1, 2, 2, 2, 1))) + ((18) * mn(p, 2, 3, 1, 1, 4, 1, 1) + ((54) * mn(p, 2, 3, 1, 1, 2, 3, 2) + (324) * mn(p, 2, 3, 1, 1, 2, 3, 0))))) + ((((-18) * mn(p, 2, 3, 1, 0, 4, 2, 0) + ((-108) * mn(p, 2, 3, 1, 0, 2, 4, 1) + (81) * mn(p, 2, 2, 2, 4, 1, 1, 2))) + ((162) * mn(p, 2, 2, 2, 4, 1, 1, 0) + ((54) * mn(p, 2, 2, 2, 3, 3, 0, 0) + (-972) * mn(p, 2, 2, 2, 3, 1, 2, 1)))) + (((-216) * mn(p, 2, 2, 2, 2, 3, 1, 1) + ((486) * mn(p, 2, 2, 2, 2, 1, 3, 2) + (972) * mn(p, 2, 2, 2, 2, 1, 3, 0))) + ((54) * mn(p, 2, 2, 2, 1, 3, 2, 2) + ((486) * mn(p, 2, 2, 2, 1, 3, 2, 0) + (-162) * mn(p, 2, 2, 2, 1, 1, 4, 3)))))) + (((((-324) * mn(p, 2, 2, 2, 1, 1, 4, 1) + ((-162) * mn(p, 2, 2, 2, 0, 3, 3, 1) + (243) * mn(p, 2, 2, 2, 0, 1, 5, 2))) + ((-486) * mn(p, 2, 2, 2, 0, 1, 5, 0) + ((-486) * mn(p, 2, 1, 3, 6, 0, 0, 1) + (972) * mn(p, 2, 1, 3, 5, 0, 1, 0)))) + (((81) * mn(p, 2, 1, 3, 4, 2, 0, 2) + ((162) * mn(p, 2, 1, 3, 4, 2, 0, 0) + (-243) * mn(p, 2, 1, 3, 4, 0, 2, 3))) + ((6804) * mn(p, 2, 1, 3, 4, 0, 2, 1) + ((-972) * mn(p, 2, 1, 3, 3, 2, 1, 1) + (-6318) * mn(p, 2, 1, 3, 3, 0, 3, 2))))) + ((((-7776) * mn(p, 2, 1, 3, 3, 0, 3, 0) + ((486) * mn(p, 2, 1, 3, 2, 2, 2, 2) + (972) * mn(p, 2, 1, 3, 2, 2, 2, 0))) + ((2916) * mn(p, 2, 1, 3, 2, 0, 4, 3) + ((4860) * mn(p, 2, 1, 3, 2, 0, 4, 1) + (-162) * mn(p, 2, 1, 3, 1, 2, 3, 3)))) + (((-324) * mn(p, 2, 1, 3, 1, 2, 3, 1) + ((-486) * mn(p, 2, 1, 3, 1, 0, 5, 4) + (-2430) * mn(p, 2, 1, 3, 1, 0, 5, 2))) + (((2916) * mn(p, 2, 1, 3, 1, 0, 5, 0) + (243) * mn(p, 2, 1, 3, 0, 2, 4, 2)) + ((-486) * mn(p, 2, 1, 3, 0, 2, 4, 0) + (729) * mn(p, 2, 1, 3, 0, 0, 6, 3))))))) + ((((((-1458) * mn(p, 2, 1, 3, 0, 0, 6, 1) + ((-243) * mn(p, 2, 0, 4, 5, 1, 0, 2) + (-486) * mn(p, 2, 0, 4, 5, 1, 0, 0))) + ((243) * mn(p, 2, 0, 4, 4, 1, 1, 3) + ((4374) * mn(p, 2, 0, 4, 4, 1, 1, 1) + (-5346) * mn(p, 2, 0, 4, 3, 1, 2, 2)))) + (((-6804) * mn(p, 2, 0, 4, 3, 1, 2, 0) + ((2916) * mn(p, 2, 0, 4, 2, 1, 3, 3) + (3888) * mn(p, 2, 0, 4, 2, 1, 3, 1))) + ((-486) * mn(p, 2, 0, 4, 1, 1, 4, 4) + ((-1701) * mn(p, 2, 0, 4, 1, 1, 4, 2) + (1458) * mn(p, 2, 0, 4, 1, 1, 4, 0))))) + ((((729) * mn(p, 2, 0, 4, 0, 1, 5, 3) + ((-1458) * mn(p, 2, 0, 4, 0, 1, 5, 1) + (18) * mn(p, 1, 4, 1, 2, 3, 1, 1))) + ((-72) * mn(p, 1, 4, 1, 1, 3, 2, 0) + ((18) * mn(p, 1, 4, 1, 0, 3, 3, 1) + (-108) * mn(p, 1, 3, 2, 3, 2, 1, 1)))) + (((18) * mn(p, 1, 3, 2, 2, 4, 0, 1) + ((54) * mn(p, 1, 3, 2, 2, 2, 2, 2) + (432) * mn(p, 1, 3, 2, 2, 2, 2, 0))) + (((-72) * mn(p, 1, 3, 2, 1, 4, 1, 0) + (-324) * mn(p, 1, 3, 2, 1, 2, 3, 1)) + ((18) * mn(p, 1, 3, 2, 0, 4, 2, 1) + (54) * mn(p, 1, 3, 2, 0, 2, 4, 2)))))) + (((((-162) * mn(p, 1, 2, 3, 4, 1, 1, 1) + ((-54) * mn(p, 1, 2, 3, 3, 3, 0, 1) + (162) * mn(p, 1, 2, 3, 3, 1, 2, 2))) + ((648) * mn(p, 1, 2, 3, 3, 1, 2, 0) + ((54) * mn(p, 1, 2, 3, 2, 3, 1, 2) + (216) * mn(p, 1, 2, 3, 2, 3, 1, 0)))) + (((-162) * mn(p, 1, 2, 3, 2, 1, 3, 3) + ((-270) * mn(p, 1, 2, 3, 1, 3, 2, 1) + (54) * mn(p, 1, 2, 3, 0, 3, 3, 2))) + ((972) * mn(p, 1, 1, 4, 5, 0, 1, 1) + ((-162) * mn(p, 1, 1, 4, 4, 2, 0, 1) + (-1458) * mn(p, 1, 1, 4, 4, 0, 2, 2))))) + ((((-3888) * mn(p, 1, 1, 4, 4, 0, 2, 0) + ((162) * mn(p, 1, 1, 4, 3, 2, 1, 2) + (648) * mn(p, 1, 1, 4, 3, 2, 1, 0))) + ((1458) * mn(p, 1, 1, 4, 3, 0, 3, 3) + ((1944) * mn(p, 1, 1, 4, 3, 0, 3, 1) + (-162) * mn(p, 1, 1, 4, 2, 2, 2, 3)))) + (((-486) * mn(p, 1, 1, 4, 2, 0, 4, 4) + ((486) * mn(p, 1, 0, 5, 5, 1, 0, 1) + (-972) * mn(p, 1, 0, 5, 4, 1, 1, 2))) + (((-1944) * mn(p, 1, 0, 5, 4, 1, 1, 0) + (972) * mn(p, 1, 0, 5, 3, 1, 2, 3)) + ((1944) * mn(p, 1, 0, 5, 3, 1, 2, 1) + (-486) * mn(p, 1, 0, 5, 2, 1, 3, 4))))))))));
    acb_prod2_c1(p);
    assert(c1 * q == ((((((((-972) * mn(p, 3, 0, 3, 3, 1, 2, 1) + (2430) * mn(p, 3, 0, 3, 2, 1, 3, 2)) + ((-5832) * mn(p, 3, 0, 3, 2, 1, 3, 0) + (-486) * mn(p, 3, 0, 3, 1, 1, 4, 3))) + (((1458) * mn(p, 3, 0, 3, 1, 1, 4, 1) + (3) * mn(p, 2, 4, 0, 1, 5, 0, 0)) + ((-54) * mn(p, 2, 2, 2, 3, 3, 0, 0) + ((54) * mn(p, 2, 2, 2, 2, 3, 1, 1) + (-54) * mn(p, 2, 2, 2, 1, 3, 2, 2))))) + ((((162) * mn(p, 2, 2, 2, 1, 3, 2, 0) + (-972) * mn(p, 2, 1, 3, 4, 0, 2, 1)) + ((2430) * mn(p, 2, 1, 3, 3, 0, 3, 2) + (-5832) * mn(p, 2, 1, 3, 3, 0, 3, 0))) + (((-486) * mn(p, 2, 1, 3, 2, 0, 4, 3) + (2430) * mn(p, 2, 1, 3, 2, 0, 4, 1)) + ((-2430) * mn(p, 2, 1, 3, 1, 0, 5, 2) + ((5832) * mn(p, 2, 1, 3, 1, 0, 5, 0) + (486) * mn(p, 2, 1, 3, 0, 0, 6, 3)))))) + (((((-1458) * mn(p, 2, 1, 3, 0, 0, 6, 1) + (243) * mn(p, 2, 0, 4, 5, 1, 0, 0)) + ((-486) * mn(p, 2, 0, 4, 4, 1, 1, 1) + (729) * mn(p, 2, 0, 4, 3, 1, 2, 2))) + (((-1458) * mn(p, 2, 0, 4, 3, 1, 2, 0) + (-486) * mn(p, 2, 0, 4, 2, 1, 3, 3)) + ((3402) * mn(p, 2, 0, 4, 2, 1, 3, 1) + ((243) * mn(p, 2, 0, 4, 1, 1, 4, 4) + (-6318) * mn(p, 2, 0, 4, 1, 1, 4, 2))))) + ((((13851) * mn(p, 2, 0, 4, 1, 1, 4, 0) + (972) * mn(p, 2, 0, 4, 0, 1, 5, 3)) + ((-2916) * mn(p, 2, 0, 4, 0, 1, 5, 1) + (3) * mn(p, 1, 5, 0, 2, 4, 0, 0))) + (((-3) * mn(p, 1, 5, 0, 0, 4, 2, 0) + (-6) * mn(p, 1, 4, 1, 0, 5, 1, 0)) + ((-54) * mn(p, 1, 3, 2, 4, 2, 0, 0) + ((54) * mn(p, 1, 3, 2, 3, 2, 1, 1) + (-54) * mn(p, 1, 3, 2, 2, 2, 2, 2))))))) + ((((((216) * mn(p, 1, 3, 2, 2, 2, 2, 0) + (-54) * mn(p, 1, 3, 2, 1, 2, 3, 1)) + ((54) * mn(p, 1, 3, 2, 0, 2, 4, 2) + (-162) * mn(p, 1, 3, 2, 0, 2, 4, 0))) + (((108) * mn(p, 1, 2, 3, 2, 3, 1, 0) + (-324) * mn(p, 1, 2, 3, 2, 1, 3, 1)) + ((-108) * mn(p, 1, 2, 3, 1, 3, 2, 1) + ((810) * mn(p, 1, 2, 3, 1, 1, 4, 2) + (-1944) * mn(p, 1, 2, 3, 1, 1, 4, 0))))) + ((((108) * mn(p, 1, 2, 3, 0, 3, 3, 2) + (-324) * mn(p, 1, 2, 3, 0, 3, 3, 0)) + ((-162) * mn(p, 1, 2, 3, 0, 1, 5, 3) + (486) * mn(p, 1, 2, 3, 0, 1, 5, 1))) + (((243) * mn(p, 1, 1, 4, 6, 0, 0, 0) + (-486) * mn(p, 1, 1, 4, 5, 0, 1, 1)) + ((729) * mn(p, 1, 1, 4, 4, 0, 2, 2) + ((-1701) * mn(p, 1, 1, 4, 4, 0, 2, 0) + (-486) * mn(p, 1, 1, 4, 3, 0, 3, 3)))))) + (((((3888) * mn(p, 1, 1, 4, 3, 0, 3, 1) + (-324) * mn(p, 1, 1, 4, 2, 2, 2, 1)) + ((243) * mn(p, 1, 1, 4, 2, 0, 4, 4) + (-8019) * mn(p, 1, 1, 4, 2, 0, 4, 2))) + (((15309) * mn(p, 1, 1, 4, 2, 0, 4, 0) + (810) * mn(p, 1, 1, 4, 1, 2, 3, 2)) + ((-1944) * mn(p, 1, 1, 4, 1, 2, 3, 0) + ((3888) * mn(p, 1, 1, 4, 1, 0, 5, 3) + (-10206) * mn(p, 1, 1, 4, 1, 0, 5, 1))))) + ((((-162) * mn(p, 1, 1, 4, 0, 2, 4, 3) + (486) * mn(p, 1, 1, 4, 0, 2, 4, 1)) + ((-729) * mn(p, 1, 1, 4, 0, 0, 6, 4) + (2916) * mn(p, 1, 1, 4, 0, 0, 6, 2))) + (((-2187) * mn(p, 1, 1, 4, 0, 0, 6, 0) + (-486) * mn(p, 1, 0, 5, 4, 1, 1, 0)) + ((1944) * mn(p, 1, 0, 5, 3, 1, 2, 1) + ((-4860) * mn(p, 1, 0, 5, 2, 1, 3, 2) + (8748) * mn(p, 1, 0, 5, 2, 1, 3, 0)))))))) + (((((((3888) * mn(p, 1, 0, 5, 1, 1, 4, 3) + (-10206) * mn(p, 1, 0, 5, 1, 1, 4, 1)) + ((-972) * mn(p, 1, 0, 5, 0, 1, 5, 4) + (4374) * mn(p, 1, 0, 5, 0, 1, 5, 2))) + (((-4374) * mn(p, 1, 0, 5, 0, 1, 5, 0) + (1) * mn(p, 0, 6, 0, 0, 5, 1, 0)) + ((-6) * mn(p, 0, 5, 1, 1, 4, 1, 0) + ((1) * mn(p, 0, 5, 1, 0, 6, 0, 0) + (3) * mn(p, 0, 5, 1, 0, 4, 2, 1))))) + ((((-18) * mn(p, 0, 4, 2, 2, 3, 1, 0) + (-3) * mn(p, 0, 4, 2, 1, 5, 0, 0)) + ((18) * mn(p, 0, 4, 2, 1, 3, 2, 1) + (3) * mn(p, 0, 4, 2, 0, 5, 1, 1))) + (((-18) * mn(p, 0, 4, 2, 0, 3, 3, 2) + (54) * mn(p, 0, 4, 2, 0, 3, 3, 0)) + ((108) * mn(p, 0, 3, 3, 3, 2, 1, 0) + ((-18) * mn(p, 0, 3, 3, 2, 4, 0, 0) + (-162) * mn(p, 0, 3, 3, 2, 2, 2, 1)))))) + (((((18) * mn(p, 0, 3, 3, 1, 4, 1, 1) + (162) * mn(p, 0, 3, 3, 1, 2, 3, 2)) + ((-324) * mn(p, 0, 3, 3, 1, 2, 3, 0) + (-18) * mn(p, 0, 3, 3, 0, 4, 2, 2))) + (((54) * mn(p, 0, 3, 3, 0, 4, 2, 0) + (-54) * mn(p, 0, 3, 3, 0, 2, 4, 3)) + ((162) * mn(p, 0, 3, 3, 0, 2, 4, 1) + ((81) * mn(p, 0, 2, 4, 4, 1, 1, 0) + (54) * mn(p, 0, 2, 4, 3, 3, 0, 0))))) + ((((-162) * mn(p, 0, 2, 4, 3, 1, 2, 1) + (-108) * mn(p, 0, 2, 4, 2, 3, 1, 1)) + ((243) * mn(p, 0, 2, 4, 2, 1, 3, 2) + (-486) * mn(p, 0, 2, 4, 2, 1, 3, 0))) + (((108) * mn(p, 0, 2, 4, 1, 3, 2, 2) + (-162) * mn(p, 0, 2, 4, 1, 3, 2, 0)) + ((-162) * mn(p, 0, 2, 4, 1, 1, 4, 3) + ((486) * mn(p, 0, 2, 4, 1, 1, 4, 1) + (-54) * mn(p, 0, 2, 4, 0, 3, 3, 3))))))) + ((((((162) * mn(p, 0, 2, 4, 0, 3, 3, 1) + (81) * mn(p, 0, 2, 4, 0, 1, 5, 4)) + ((-486) * mn(p, 0, 2, 4, 0, 1, 5, 2) + (729) * mn(p, 0, 2, 4, 0, 1, 5, 0))) + (((-486) * mn(p, 0, 1, 5, 5, 0, 1, 0) + (81) * mn(p, 0, 1, 5, 4, 2, 0, 0)) + ((1215) * mn(p, 0, 1, 5, 4, 0, 2, 1) + ((-162) * mn(p, 0, 1, 5, 3, 2, 1, 1) + (-1944) * mn(p, 0, 1, 5, 3, 0, 3, 2))))) + ((((2916) * mn(p, 0, 1, 5, 3, 0, 3, 0) + (243) * mn(p, 0, 1, 5, 2, 2, 2, 2)) + ((-486) * mn(p, 0, 1, 5, 2, 2, 2, 0) + (1701) * mn(p, 0, 1, 5, 2, 0, 4, 3))) + (((-4374) * mn(p, 0, 1, 5, 2, 0, 4, 1) + (-162) * mn(p, 0, 1, 5, 1, 2, 3, 3)) + ((486) * mn(p, 0, 1, 5, 1, 2, 3, 1) + ((-972) * mn(p, 0, 1, 5, 1, 0, 5, 4) + (4374) * mn(p, 0, 1, 5, 1, 0, 5, 2)))))) + (((((-4374) * mn(p, 0, 1, 5, 1, 0, 5, 0) + (81) * mn(p, 0, 1, 5, 0, 2, 4, 4)) + ((-486) * mn(p, 0, 1, 5, 0, 2, 4, 2) + (729) * mn(p, 0, 1, 5, 0, 2, 4, 0))) + (((243) * mn(p, 0, 1, 5, 0, 0, 6, 5) + (-1458) * mn(p, 0, 1, 5, 0, 0, 6, 3)) + ((2187) * mn(p, 0, 1, 5, 0, 0, 6, 1) + ((-243) * mn(p, 0, 0, 6, 5, 1, 0, 0) + (729) * mn(p, 0, 0, 6, 4, 1, 1, 1))))) + ((((-1215) * mn(p, 0, 0, 6, 3, 1, 2, 2) + (1458) * mn(p, 0, 0, 6, 3, 1, 2, 0)) + ((1215) * mn(p, 0, 0, 6, 2, 1, 3, 3) + ((-2916) * mn(p, 0, 0, 6, 2, 1, 3, 1) + (-729) * mn(p, 0, 0, 6, 1, 1, 4, 4)))) + (((2916) * mn(p, 0, 0, 6, 1, 1, 4, 2) + (-2187) * mn(p, 0, 0, 6, 1, 1, 4, 0)) + ((243) * mn(p, 0, 0, 6, 0, 1, 5, 5) + ((-1458) * mn(p, 0, 0, 6, 0, 1, 5, 3) + (2187) * mn(p, 0, 0, 6, 0, 1, 5, 1))))))))));
    assert(cc1 * q == (((((((((243) * mn(p, 6, 0, 0, 5, 1, 0, 0) + (-486) * mn(p, 6, 0, 0, 4, 1, 1, 1)) + ((243) * mn(p, 6, 0, 0, 3, 1, 2, 2) + (486) * mn(p, 6, 0, 0, 3, 1, 2, 0))) + (((-486) * mn(p, 6, 0, 0, 2, 1, 3, 1) + (243) * mn(p, 6, 0, 0, 1, 1, 4, 0)) + ((243) * mn(p, 5, 1, 0, 6, 0, 0, 0) + ((-486) * mn(p, 5, 1, 0, 5, 0, 1, 1) + (243) * mn(p, 5, 1, 0, 4, 0, 2, 2))))) + ((((243) * mn(p, 5, 1, 0, 4, 0, 2, 0) + (-243) * mn(p, 5, 1, 0, 2, 0, 4, 2)) + ((-243) * mn(p, 5, 1, 0, 2, 0, 4, 0) + (486) * mn(p, 5, 1, 0, 1, 0, 5, 1))) + (((-243) * mn(p, 5, 1, 0, 0, 0, 6, 0) + (-486) * mn(p, 5, 0, 1, 5, 1, 0, 1)) + ((486) * mn(p, 5, 0, 1, 4, 1, 1, 2) + ((1458) * mn(p, 5, 0, 1, 4, 1, 1, 0) + (-1944) * mn(p, 5, 0, 1, 3, 1, 2, 1)))))) + (((((972) * mn(p, 5, 0, 1, 2, 1, 3, 0) + (486) * mn(p, 5, 0, 1, 1, 1, 4, 1)) + ((-486) * mn(p, 5, 0, 1, 0, 1, 5, 0) + (81) * mn(p, 4, 2, 0, 4, 1, 1, 0))) + (((-54) * mn(p, 4, 2, 0, 3, 3, 0, 0) + (-162) * mn(p, 4, 2, 0, 3, 1, 2, 1)) + ((54) * mn(p, 4, 2, 0, 2, 3, 1, 1) + ((81) * mn(p, 4, 2, 0, 2, 1, 3, 2) + (162) * mn(p, 4, 2, 0, 2, 1, 3, 0))))) + ((((-54) * mn(p, 4, 2, 0, 1, 3, 2, 0) + (-162) * mn(p, 4, 2, 0, 1, 1, 4, 1)) + ((81) * mn(p, 4, 2, 0, 0, 1, 5, 0) + (-486) * mn(p, 4, 1, 1, 6, 0, 0, 1))) + (((486) * mn(p, 4, 1, 1, 5, 0, 1, 2) + (1458) * mn(p, 4, 1, 1, 5, 0, 1, 0)) + ((81) * mn(p, 4, 1, 1, 4, 2, 0, 0) + ((-1215) * mn(p, 4, 1, 1, 4, 0, 2, 1) + (-162) * mn(p, 4, 1, 1, 3, 2, 1, 1))))))) + ((((((-972) * mn(p, 4, 1, 1, 3, 0, 3, 2) + (-972) * mn(p, 4, 1, 1, 3, 0, 3, 0)) + ((81) * mn(p, 4, 1, 1, 2, 2, 2, 2) + (162) * mn(p, 4, 1, 1, 2, 2, 2, 0))) + (((243) * mn(p, 4, 1, 1, 2, 0, 4, 3) + (3888) * mn(p, 4, 1, 1, 2, 0, 4, 1)) + ((-162) * mn(p, 4, 1, 1, 1, 2, 3, 1) + ((-972) * mn(p, 4, 1, 1, 1, 0, 5, 2) + (-2430) * mn(p, 4, 1, 1, 1, 0, 5, 0))))) + ((((81) * mn(p, 4, 1, 1, 0, 2, 4, 0) + (729) * mn(p, 4, 1, 1, 0, 0, 6, 1)) + ((243) * mn(p, 4, 0, 2, 5, 1, 0, 2) + (243) * mn(p, 4, 0, 2, 5, 1, 0, 0))) + (((-1215) * mn(p, 4, 0, 2, 4, 1, 1, 1) + (-243) * mn(p, 4, 0, 2, 3, 1, 2, 2)) + ((-1458) * mn(p, 4, 0, 2, 3, 1, 2, 0) + ((-243) * mn(p, 4, 0, 2, 2, 1, 3, 3) + (5832) * mn(p, 4, 0, 2, 2, 1, 3, 1)))))) + (((((-729) * mn(p, 4, 0, 2, 1, 1, 4, 2) + (-5589) * mn(p, 4, 0, 2, 1, 1, 4, 0)) + ((1215) * mn(p, 4, 0, 2, 0, 1, 5, 1) + (-54) * mn(p, 3, 3, 0, 4, 2, 0, 0))) + (((54) * mn(p, 3, 3, 0, 3, 2, 1, 1) + (-54) * mn(p, 3, 3, 0, 1, 2, 3, 1)) + ((54) * mn(p, 3, 3, 0, 0, 2, 4, 0) + ((-162) * mn(p, 3, 2, 1, 4, 1, 1, 1) + (54) * mn(p, 3, 2, 1, 3, 3, 0, 1))))) + ((((162) * mn(p, 3, 2, 1, 3, 1, 2, 2) + (648) * mn(p, 3, 2, 1, 3, 1, 2, 0)) + ((-108) * mn(p, 3, 2, 1, 2, 3, 1, 0) + ((-972) * mn(p, 3, 2, 1, 2, 1, 3, 1) + (-54) * mn(p, 3, 2, 1, 1, 3, 2, 1)))) + (((162) * mn(p, 3, 2, 1, 1, 1, 4, 2) + (648) * mn(p, 3, 2, 1, 1, 1, 4, 0)) + ((108) * mn(p, 3, 2, 1, 0, 3, 3, 0) + ((-162) * mn(p, 3, 2, 1, 0, 1, 5, 1) + (243) * mn(p, 3, 1, 2, 6, 0, 0, 2)))))))) + (((((((486) * mn(p, 3, 1, 2, 6, 0, 0, 0) + (-1944) * mn(p, 3, 1, 2, 5, 0, 1, 1)) + ((-162) * mn(p, 3, 1, 2, 4, 2, 0, 1) + (-243) * mn(p, 3, 1, 2, 4, 0, 2, 2))) + (((-1458) * mn(p, 3, 1, 2, 4, 0, 2, 0) + (162) * mn(p, 3, 1, 2, 3, 2, 1, 2)) + ((648) * mn(p, 3, 1, 2, 3, 2, 1, 0) + ((9720) * mn(p, 3, 1, 2, 3, 0, 3, 1) + (-972) * mn(p, 3, 1, 2, 2, 2, 2, 1))))) + ((((-4617) * mn(p, 3, 1, 2, 2, 0, 4, 2) + (-8262) * mn(p, 3, 1, 2, 2, 0, 4, 0)) + ((162) * mn(p, 3, 1, 2, 1, 2, 3, 2) + (648) * mn(p, 3, 1, 2, 1, 2, 3, 0))) + (((972) * mn(p, 3, 1, 2, 1, 0, 5, 3) + (3888) * mn(p, 3, 1, 2, 1, 0, 5, 1)) + ((-162) * mn(p, 3, 1, 2, 0, 2, 4, 1) + ((-1215) * mn(p, 3, 1, 2, 0, 0, 6, 2) + (1458) * mn(p, 3, 1, 2, 0, 0, 6, 0)))))) + (((((-972) * mn(p, 3, 0, 3, 4, 1, 1, 2) + (-972) * mn(p, 3, 0, 3, 4, 1, 1, 0)) + ((9720) * mn(p, 3, 0, 3, 3, 1, 2, 1) + (-3888) * mn(p, 3, 0, 3, 2, 1, 3, 2))) + (((-13608) * mn(p, 3, 0, 3, 2, 1, 3, 0) + (972) * mn(p, 3, 0, 3, 1, 1, 4, 3)) + ((5832) * mn(p, 3, 0, 3, 1, 1, 4, 1) + ((-1944) * mn(p, 3, 0, 3, 0, 1, 5, 2) + (2916) * mn(p, 3, 0, 3, 0, 1, 5, 0))))) + ((((-18) * mn(p, 2, 4, 0, 2, 3, 1, 0) + (3) * mn(p, 2, 4, 0, 1, 5, 0, 0)) + ((18) * mn(p, 2, 4, 0, 1, 3, 2, 1) + ((-18) * mn(p, 2, 4, 0, 0, 3, 3, 0) + (54) * mn(p, 2, 3, 1, 4, 2, 0, 1)))) + (((-108) * mn(p, 2, 3, 1, 3, 2, 1, 0) + (-18) * mn(p, 2, 3, 1, 2, 4, 0, 0)) + ((-162) * mn(p, 2, 3, 1, 2, 2, 2, 1) + ((18) * mn(p, 2, 3, 1, 1, 4, 1, 1) + (54) * mn(p, 2, 3, 1, 1, 2, 3, 2))))))) + ((((((324) * mn(p, 2, 3, 1, 1, 2, 3, 0) + (-18) * mn(p, 2, 3, 1, 0, 4, 2, 0)) + ((-108) * mn(p, 2, 3, 1, 0, 2, 4, 1) + (81) * mn(p, 2, 2, 2, 4, 1, 1, 2))) + (((162) * mn(p, 2, 2, 2, 4, 1, 1, 0) + (-972) * mn(p, 2, 2, 2, 3, 1, 2, 1)) + ((-162) * mn(p, 2, 2, 2, 2, 3, 1, 1) + ((486) * mn(p, 2, 2, 2, 2, 1, 3, 2) + (972) * mn(p, 2, 2, 2, 2, 1, 3, 0))))) + ((((648) * mn(p, 2, 2, 2, 1, 3, 2, 0) + (-162) * mn(p, 2, 2, 2, 1, 1, 4, 3)) + ((-324) * mn(p, 2, 2, 2, 1, 1, 4, 1) + (-162) * mn(p, 2, 2, 2, 0, 3, 3, 1))) + (((243) * mn(p, 2, 2, 2, 0, 1, 5, 2) + (-486) * mn(p, 2, 2, 2, 0, 1, 5, 0)) + ((-486) * mn(p, 2, 1, 3, 6, 0, 0, 1) + ((972) * mn(p, 2, 1, 3, 5, 0, 1, 0) + (81) * mn(p, 2, 1, 3, 4, 2, 0, 2)))))) + (((((162) * mn(p, 2, 1, 3, 4, 2, 0, 0) + (-243) * mn(p, 2, 1, 3, 4, 0, 2, 3)) + ((5832) * mn(p, 2, 1, 3, 4, 0, 2, 1) + (-972) * mn(p, 2, 1, 3, 3, 2, 1, 1))) + (((-3888) * mn(p, 2, 1, 3, 3, 0, 3, 2) + (-13608) * mn(p, 2, 1, 3, 3, 0, 3, 0)) + ((486) * mn(p, 2, 1, 3, 2, 2, 2, 2) + ((972) * mn(p, 2, 1, 3, 2, 2, 2, 0) + (2430) * mn(p, 2, 1, 3, 2, 0, 4, 3))))) + ((((7290) * mn(p, 2, 1, 3, 2, 0, 4, 1) + (-162) * mn(p, 2, 1, 3, 1, 2, 3, 3)) + ((-324) * mn(p, 2, 1, 3, 1, 2, 3, 1) + ((-486) * mn(p, 2, 1, 3, 1, 0, 5, 4) + (-4860) * mn(p, 2, 1, 3, 1, 0, 5, 2)))) + (((8748) * mn(p, 2, 1, 3, 1, 0, 5, 0) + (243) * mn(p, 2, 1, 3, 0, 2, 4, 2)) + ((-486) * mn(p, 2, 1, 3, 0, 2, 4, 0) + ((1215) * mn(p, 2, 1, 3, 0, 0, 6, 3) + (-2916) * mn(p, 2, 1, 3, 0, 0, 6, 1))))))))) + ((((((((-243) * mn(p, 2, 0, 4, 5, 1, 0, 2) + (-243) * mn(p, 2, 0, 4, 5, 1, 0, 0)) + ((243) * mn(p, 2, 0, 4, 4, 1, 1, 3) + (3888) * mn(p, 2, 0, 4, 4, 1, 1, 1))) + (((-4617) * mn(p, 2, 0, 4, 3, 1, 2, 2) + (-8262) * mn(p, 2, 0, 4, 3, 1, 2, 0)) + ((2430) * mn(p, 2, 0, 4, 2, 1, 3, 3) + ((7290) * mn(p, 2, 0, 4, 2, 1, 3, 1) + (-243) * mn(p, 2, 0, 4, 1, 1, 4, 4))))) + ((((-8019) * mn(p, 2, 0, 4, 1, 1, 4, 2) + (15309) * mn(p, 2, 0, 4, 1, 1, 4, 0)) + ((1701) * mn(p, 2, 0, 4, 0, 1, 5, 3) + (-4374) * mn(p, 2, 0, 4, 0, 1, 5, 1))) + (((3) * mn(p, 1, 5, 0, 2, 4, 0, 0) + (-3) * mn(p, 1, 5, 0, 0, 4, 2, 0)) + ((18) * mn(p, 1, 4, 1, 2, 3, 1, 1) + ((-72) * mn(p, 1, 4, 1, 1, 3, 2, 0) + (-6) * mn(p, 1, 4, 1, 0, 5, 1, 0)))))) + (((((18) * mn(p, 1, 4, 1, 0, 3, 3, 1) + (-54) * mn(p, 1, 3, 2, 4, 2, 0, 0)) + ((-54) * mn(p, 1, 3, 2, 3, 2, 1, 1) + (18) * mn(p, 1, 3, 2, 2, 4, 0, 1))) + (((648) * mn(p, 1, 3, 2, 2, 2, 2, 0) + (-72) * mn(p, 1, 3, 2, 1, 4, 1, 0)) + ((-378) * mn(p, 1, 3, 2, 1, 2, 3, 1) + ((18) * mn(p, 1, 3, 2, 0, 4, 2, 1) + (108) * mn(p, 1, 3, 2, 0, 2, 4, 2))))) + ((((-162) * mn(p, 1, 3, 2, 0, 2, 4, 0) + (-162) * mn(p, 1, 2, 3, 4, 1, 1, 1)) + ((-54) * mn(p, 1, 2, 3, 3, 3, 0, 1) + (162) * mn(p, 1, 2, 3, 3, 1, 2, 2))) + (((648) * mn(p, 1, 2, 3, 3, 1, 2, 0) + (54) * mn(p, 1, 2, 3, 2, 3, 1, 2)) + ((324) * mn(p, 1, 2, 3, 2, 3, 1, 0) + ((-162) * mn(p, 1, 2, 3, 2, 1, 3, 3) + (-324) * mn(p, 1, 2, 3, 2, 1, 3, 1))))))) + ((((((-378) * mn(p, 1, 2, 3, 1, 3, 2, 1) + (810) * mn(p, 1, 2, 3, 1, 1, 4, 2)) + ((-1944) * mn(p, 1, 2, 3, 1, 1, 4, 0) + (162) * mn(p, 1, 2, 3, 0, 3, 3, 2))) + (((-324) * mn(p, 1, 2, 3, 0, 3, 3, 0) + (-162) * mn(p, 1, 2, 3, 0, 1, 5, 3)) + ((486) * mn(p, 1, 2, 3, 0, 1, 5, 1) + ((243) * mn(p, 1, 1, 4, 6, 0, 0, 0) + (486) * mn(p, 1, 1, 4, 5, 0, 1, 1))))) + ((((-162) * mn(p, 1, 1, 4, 4, 2, 0, 1) + (-729) * mn(p, 1, 1, 4, 4, 0, 2, 2)) + ((-5589) * mn(p, 1, 1, 4, 4, 0, 2, 0) + (162) * mn(p, 1, 1, 4, 3, 2, 1, 2))) + (((648) * mn(p, 1, 1, 4, 3, 2, 1, 0) + (972) * mn(p, 1, 1, 4, 3, 0, 3, 3)) + ((5832) * mn(p, 1, 1, 4, 3, 0, 3, 1) + ((-162) * mn(p, 1, 1, 4, 2, 2, 2, 3) + (-324) * mn(p, 1, 1, 4, 2, 2, 2, 1)))))) + (((((-243) * mn(p, 1, 1, 4, 2, 0, 4, 4) + (-8019) * mn(p, 1, 1, 4, 2, 0, 4, 2)) + ((15309) * mn(p, 1, 1, 4, 2, 0, 4, 0) + (810) * mn(p, 1, 1, 4, 1, 2, 3, 2))) + (((-1944) * mn(p, 1, 1, 4, 1, 2, 3, 0) + (3888) * mn(p, 1, 1, 4, 1, 0, 5, 3)) + ((-10206) * mn(p, 1, 1, 4, 1, 0, 5, 1) + ((-162) * mn(p, 1, 1, 4, 0, 2, 4, 3) + (486) * mn(p, 1, 1, 4, 0, 2, 4, 1))))) + ((((-729) * mn(p, 1, 1, 4, 0, 0, 6, 4) + (2916) * mn(p, 1, 1, 4, 0, 0, 6, 2)) + ((-2187) * mn(p, 1, 1, 4, 0, 0, 6, 0) + ((486) * mn(p, 1, 0, 5, 5, 1, 0, 1) + (-972) * mn(p, 1, 0, 5, 4, 1, 1, 2)))) + (((-2430) * mn(p, 1, 0, 5, 4, 1, 1, 0) + (972) * mn(p, 1, 0, 5, 3, 1, 2, 3)) + ((3888) * mn(p, 1, 0, 5, 3, 1, 2, 1) + ((-486) * mn(p, 1, 0, 5, 2, 1, 3, 4) + (-4860) * mn(p, 1, 0, 5, 2, 1, 3, 2)))))))) + (((((((8748) * mn(p, 1, 0, 5, 2, 1, 3, 0) + (3888) * mn(p, 1, 0, 5, 1, 1, 4, 3)) + ((-10206) * mn(p, 1, 0, 5, 1, 1, 4, 1) + (-972) * mn(p, 1, 0, 5, 0, 1, 5, 4))) + (((4374) * mn(p, 1, 0, 5, 0, 1, 5, 2) + (-4374) * mn(p, 1, 0, 5, 0, 1, 5, 0)) + ((1) * mn(p, 0, 6, 0, 0, 5, 1, 0) + ((-6) * mn(p, 0, 5, 1, 1, 4, 1, 0) + (1) * mn(p, 0, 5, 1, 0, 6, 0, 0))))) + ((((3) * mn(p, 0, 5, 1, 0, 4, 2, 1) + (-18) * mn(p, 0, 4, 2, 2, 3, 1, 0)) + ((-3) * mn(p, 0, 4, 2, 1, 5, 0, 0) + (18) * mn(p, 0, 4, 2, 1, 3, 2, 1))) + (((3) * mn(p, 0, 4, 2, 0, 5, 1, 1) + (-18) * mn(p, 0, 4, 2, 0, 3, 3, 2)) + ((54) * mn(p, 0, 4, 2, 0, 3, 3, 0) + ((108) * mn(p, 0, 3, 3, 3, 2, 1, 0) + (-18) * mn(p, 0, 3, 3, 2, 4, 0, 0)))))) + (((((-162) * mn(p, 0, 3, 3, 2, 2, 2, 1) + (18) * mn(p, 0, 3, 3, 1, 4, 1, 1)) + ((162) * mn(p, 0, 3, 3, 1, 2, 3, 2) + (-324) * mn(p, 0, 3, 3, 1, 2, 3, 0))) + (((-18) * mn(p, 0, 3, 3, 0, 4, 2, 2) + (54) * mn(p, 0, 3, 3, 0, 4, 2, 0)) + ((-54) * mn(p, 0, 3, 3, 0, 2, 4, 3) + ((162) * mn(p, 0, 3, 3, 0, 2, 4, 1) + (81) * mn(p, 0, 2, 4, 4, 1, 1, 0))))) + ((((54) * mn(p, 0, 2, 4, 3, 3, 0, 0) + (-162) * mn(p, 0, 2, 4, 3, 1, 2, 1)) + ((-108) * mn(p, 0, 2, 4, 2, 3, 1, 1) + ((243) * mn(p, 0, 2, 4, 2, 1, 3, 2) + (-486) * mn(p, 0, 2, 4, 2, 1, 3, 0)))) + (((108) * mn(p, 0, 2, 4, 1, 3, 2, 2) + (-162) * mn(p, 0, 2, 4, 1, 3, 2, 0)) + ((-162) * mn(p, 0, 2, 4, 1, 1, 4, 3) + ((486) * mn(p, 0, 2, 4, 1, 1, 4, 1) + (-54) * mn(p, 0, 2, 4, 0, 3, 3, 3))))))) + ((((((162) * mn(p, 0, 2, 4, 0, 3, 3, 1) + (81) * mn(p, 0, 2, 4, 0, 1, 5, 4)) + ((-486) * mn(p, 0, 2, 4, 0, 1, 5, 2) + (729) * mn(p, 0, 2, 4, 0, 1, 5, 0))) + (((-486) * mn(p, 0, 1, 5, 5, 0, 1, 0) + (81) * mn(p, 0, 1, 5, 4, 2, 0, 0)) + ((1215) * mn(p, 0, 1, 5, 4, 0, 2, 1) + ((-162) * mn(p, 0, 1, 5, 3, 2, 1, 1) + (-1944) * mn(p, 0, 1, 5, 3, 0, 3, 2))))) + ((((2916) * mn(p, 0, 1, 5, 3, 0, 3, 0) + (243) * mn(p, 0, 1, 5, 2, 2, 2, 2)) + ((-486) * mn(p, 0, 1, 5, 2, 2, 2, 0) + (1701) * mn(p, 0, 1, 5, 2, 0, 4, 3))) + (((-4374) * mn(p, 0, 1, 5, 2, 0, 4, 1) + (-162) * mn(p, 0, 1, 5, 1, 2, 3, 3)) + ((486) * mn(p, 0, 1, 5, 1, 2, 3, 1) + ((-972) * mn(p, 0, 1, 5, 1, 0, 5, 4) + (4374) * mn(p, 0, 1, 5, 1, 0, 5, 2)))))) + (((((-4374) * mn(p, 0, 1, 5, 1, 0, 5, 0) + (81) * mn(p, 0, 1, 5, 0, 2, 4, 4)) + ((-486) * mn(p, 0, 1, 5, 0, 2, 4, 2) + (729) * mn(p, 0, 1, 5, 0, 2, 4, 0))) + (((243) * mn(p, 0, 1, 5, 0, 0, 6, 5) + (-1458) * mn(p, 0, 1, 5, 0, 0, 6, 3)) + ((2187) * mn(p, 0, 1, 5, 0, 0, 6, 1) + ((-243) * mn(p, 0, 0, 6, 5, 1, 0, 0) + (729) * mn(p, 0, 0, 6, 4, 1, 1, 1))))) + ((((-1215) * mn(p, 0, 0, 6, 3, 1, 2, 2) + (1458) * mn(p, 0, 0, 6, 3, 1, 2, 0)) + ((1215) * mn(p, 0, 0, 6, 2, 1, 3, 3) + ((-2916) * mn(p, 0, 0, 6, 2, 1, 3, 1) + (-729) * mn(p, 0, 0, 6, 1, 1, 4, 4)))) + (((2916) * mn(p, 0, 0, 6, 1, 1, 4, 2) + (-2187) * mn(p, 0, 0, 6, 1, 1, 4, 0)) + ((243) * mn(p, 0, 0, 6, 0, 1, 5, 5) + ((-1458) * mn(p, 0, 0, 6, 0, 1, 5, 3) + (2187) * mn(p, 0, 0, 6, 0, 1, 5, 1)))))))))));
}

#[verifier::rlimit(100)]
proof fn acb_prod2_c0(p: Pt)
    ensures
        (((((((81) * mn(p, 4, 0, 0, 4, 0, 0, 0) + (-162) * mn(p, 4, 0, 0, 3, 0, 1, 1)) + ((81) * mn(p, 4, 0, 0, 2, 0, 2, 2) + (162) * mn(p, 4, 0, 0, 2, 0, 2, 0))) + (((-162) * mn(p, 4, 0, 0, 1, 0, 3, 1) + (81) * mn(p, 4, 0, 0, 0, 0, 4, 0)) + ((-162) * mn(p, 3, 0, 1, 4, 0, 0, 1) + (162) * mn(p, 3, 0, 1, 3, 0, 1, 2)))) + ((((648) * mn(p, 3, 0, 1, 3, 0, 1, 0) + (-972) * mn(p, 3, 0, 1, 2, 0, 2, 1)) + ((162) * mn(p, 3, 0, 1, 1, 0, 3, 2) + (648) * mn(p, 3, 0, 1, 1, 0, 3, 0))) + (((-162) * mn(p, 3, 0, 1, 0, 0, 4, 1) + (-18) * mn(p, 2, 2, 0, 2, 2, 0, 0)) + ((18) * mn(p, 2, 2, 0, 1, 2, 1, 1) + (-18) * mn(p, 2, 2, 0, 0, 2, 2, 0))))) + (((((81) * mn(p, 2, 0, 2, 4, 0, 0, 2) + (162) * mn(p, 2, 0, 2, 4, 0, 0, 0)) + ((-972) * mn(p, 2, 0, 2, 3, 0, 1, 1) + (486) * mn(p, 2, 0, 2, 2, 0, 2, 2))) + (((972) * mn(p, 2, 0, 2, 2, 0, 2, 0) + (-162) * mn(p, 2, 0, 2, 1, 0, 3, 3)) + ((-324) * mn(p, 2, 0, 2, 1, 0, 3, 1) + (243) * mn(p, 2, 0, 2, 0, 0, 4, 2)))) + ((((-486) * mn(p, 2, 0, 2, 0, 0, 4, 0) + (18) * mn(p, 1, 2, 1, 2, 2, 0, 1)) + ((-72) * mn(p, 1, 2, 1, 1, 2, 1, 0) + (18) * mn(p, 1, 2, 1, 0, 2, 2, 1))) + (((-162) * mn(p, 1, 0, 3, 4, 0, 0, 1) + (162) * mn(p, 1, 0, 3, 3, 0, 1, 2)) + ((648) * mn(p, 1, 0, 3, 3, 0, 1, 0) + (-162) * mn(p, 1, 0, 3, 2, 0, 2, 3))))))) * (((((3) * mn(p, 2, 0, 0, 1, 1, 0, 0) + (3) * mn(p, 1, 1, 0, 2, 0, 0, 0)) + ((-3) * mn(p, 1, 1, 0, 0, 0, 2, 0) + ((-6) * mn(p, 1, 0, 1, 0, 1, 1, 0) + (1) * mn(p, 0, 2, 0, 0, 1, 1, 0)))) + (((-6) * mn(p, 0, 1, 1, 1, 0, 1, 0) + (1) * mn(p, 0, 1, 1, 0, 2, 0, 0)) + ((3) * mn(p, 0, 1, 1, 0, 0, 2, 1) + ((-3) * mn(p, 0, 0, 2, 1, 1, 0, 0) + (3) * mn(p, 0, 0, 2, 0, 1, 1, 1)))))) == ((((((((243) * mn(p, 6, 0, 0, 5, 1, 0, 0) + ((-486) * mn(p, 6, 0, 0, 4, 1, 1, 1) + (243) * mn(p, 6, 0, 0, 3, 1, 2, 2))) + ((486) * mn(p, 6, 0, 0, 3, 1, 2, 0) + ((-486) * mn(p, 6, 0, 0, 2, 1, 3, 1) + (243) * mn(p, 6, 0, 0, 1, 1, 4, 0)))) + (((243) * mn(p, 5, 1, 0, 6, 0, 0, 0) + ((-486) * mn(p, 5, 1, 0, 5, 0, 1, 1) + (243) * mn(p, 5, 1, 0, 4, 0, 2, 2))) + ((243) * mn(p, 5, 1, 0, 4, 0, 2, 0) + ((-243) * mn(p, 5, 1, 0, 2, 0, 4, 2) + (-243) * mn(p, 5, 1, 0, 2, 0, 4, 0))))) + ((((486) * mn(p, 5, 1, 0, 1, 0, 5, 1) + ((-243) * mn(p, 5, 1, 0, 0, 0, 6, 0) + (-486) * mn(p, 5, 0, 1, 5, 1, 0, 1))) + ((486) * mn(p, 5, 0, 1, 4, 1, 1, 2) + ((1458) * mn(p, 5, 0, 1, 4, 1, 1, 0) + (-1944) * mn(p, 5, 0, 1, 3, 1, 2, 1)))) + (((972) * mn(p, 5, 0, 1, 2, 1, 3, 0) + ((486) * mn(p, 5, 0, 1, 1, 1, 4, 1) + (-486) * mn(p, 5, 0, 1, 0, 1, 5, 0))) + ((81) * mn(p, 4, 2, 0, 4, 1, 1, 0) + ((-54) * mn(p, 4, 2, 0, 3, 3, 0, 0) + (-162) * mn(p, 4, 2, 0, 3, 1, 2, 1)))))) + (((((54) * mn(p, 4, 2, 0, 2, 3, 1, 1) + ((81) * mn(p, 4, 2, 0, 2, 1, 3, 2) + (162) * mn(p, 4, 2, 0, 2, 1, 3, 0))) + ((-54) * mn(p, 4, 2, 0, 1, 3, 2, 0) + ((-162) * mn(p, 4, 2, 0, 1, 1, 4, 1) + (81) * mn(p, 4, 2, 0, 0, 1, 5, 0)))) + (((-486) * mn(p, 4, 1, 1, 6, 0, 0, 1) + ((486) * mn(p, 4, 1, 1, 5, 0, 1, 2) + (1458) * mn(p, 4, 1, 1, 5, 0, 1, 0))) + ((81) * mn(p, 4, 1, 1, 4, 2, 0, 0) + ((-1215) * mn(p, 4, 1, 1, 4, 0, 2, 1) + (-162) * mn(p, 4, 1, 1, 3, 2, 1, 1))))) + ((((-972) * mn(p, 4, 1, 1, 3, 0, 3, 2) + ((-972) * mn(p, 4, 1, 1, 3, 0, 3, 0) + (81) * mn(p, 4, 1, 1, 2, 2, 2, 2))) + ((162) * mn(p, 4, 1, 1, 2, 2, 2, 0) + ((243) * mn(p, 4, 1, 1, 2, 0, 4, 3) + (3888) * mn(p, 4, 1, 1, 2, 0, 4, 1)))) + (((-162) * mn(p, 4, 1, 1, 1, 2, 3, 1) + ((-972) * mn(p, 4, 1, 1, 1, 0, 5, 2) + (-2430) * mn(p, 4, 1, 1, 1, 0, 5, 0))) + (((81) * mn(p, 4, 1, 1, 0, 2, 4, 0) + (729) * mn(p, 4, 1, 1, 0, 0, 6, 1)) + ((243) * mn(p, 4, 0, 2, 5, 1, 0, 2) + (243) * mn(p, 4, 0, 2, 5, 1, 0, 0))))))) + ((((((-1215) * mn(p, 4, 0, 2, 4, 1, 1, 1) + ((-243) * mn(p, 4, 0, 2, 3, 1, 2, 2) + (-1458) * mn(p, 4, 0, 2, 3, 1, 2, 0))) + ((-243) * mn(p, 4, 0, 2, 2, 1, 3, 3) + ((5832) * mn(p, 4, 0, 2, 2, 1, 3, 1) + (-729) * mn(p, 4, 0, 2, 1, 1, 4, 2)))) + (((-5589) * mn(p, 4, 0, 2, 1, 1, 4, 0) + ((1215) * mn(p, 4, 0, 2, 0, 1, 5, 1) + (-54) * mn(p, 3, 3, 0, 4, 2, 0, 0))) + ((54) * mn(p, 3, 3, 0, 3, 2, 1, 1) + ((-54) * mn(p, 3, 3, 0, 1, 2, 3, 1) + (54) * mn(p, 3, 3, 0, 0, 2, 4, 0))))) + ((((-162) * mn(p, 3, 2, 1, 4, 1, 1, 1) + ((54) * mn(p, 3, 2, 1, 3, 3, 0, 1) + (162) * mn(p, 3, 2, 1, 3, 1, 2, 2))) + ((648) * mn(p, 3, 2, 1, 3, 1, 2, 0) + ((-108) * mn(p, 3, 2, 1, 2, 3, 1, 0) + (-972) * mn(p, 3, 2, 1, 2, 1, 3, 1)))) + (((-54) * mn(p, 3, 2, 1, 1, 3, 2, 1) + ((162) * mn(p, 3, 2, 1, 1, 1, 4, 2) + (648) * mn(p, 3, 2, 1, 1, 1, 4, 0))) + ((108) * mn(p, 3, 2, 1, 0, 3, 3, 0) + ((-162) * mn(p, 3, 2, 1, 0, 1, 5, 1) + (243) * mn(p, 3, 1, 2, 6, 0, 0, 2)))))) + (((((486) * mn(p, 3, 1, 2, 6, 0, 0, 0) + ((-1944) * mn(p, 3, 1, 2, 5, 0, 1, 1) + (-162) * mn(p, 3, 1, 2, 4, 2, 0, 1))) + ((-243) * mn(p, 3, 1, 2, 4, 0, 2, 2) + ((-1458) * mn(p, 3, 1, 2, 4, 0, 2, 0) + (162) * mn(p, 3, 1, 2, 3, 2, 1, 2)))) + (((648) * mn(p, 3, 1, 2, 3, 2, 1, 0) + ((9720) * mn(p, 3, 1, 2, 3, 0, 3, 1) + (-972) * mn(p, 3, 1, 2, 2, 2, 2, 1))) + ((-4617) * mn(p, 3, 1, 2, 2, 0, 4, 2) + ((-8262) * mn(p, 3, 1, 2, 2, 0, 4, 0) + (162) * mn(p, 3, 1, 2, 1, 2, 3, 2))))) + ((((648) * mn(p, 3, 1, 2, 1, 2, 3, 0) + ((972) * mn(p, 3, 1, 2, 1, 0, 5, 3) + (3888) * mn(p, 3, 1, 2, 1, 0, 5, 1))) + ((-162) * mn(p, 3, 1, 2, 0, 2, 4, 1) + ((-1215) * mn(p, 3, 1, 2, 0, 0, 6, 2) + (1458) * mn(p, 3, 1, 2, 0, 0, 6, 0)))) + (((-972) * mn(p, 3, 0, 3, 4, 1, 1, 2) + ((-972) * mn(p, 3, 0, 3, 4, 1, 1, 0) + (10692) * mn(p, 3, 0, 3, 3, 1, 2, 1))) + (((-6318) * mn(p, 3, 0, 3, 2, 1, 3, 2) + (-7776) * mn(p, 3, 0, 3, 2, 1, 3, 0)) + ((1458) * mn(p, 3, 0, 3, 1, 1, 4, 3) + (4374) * mn(p, 3, 0, 3, 1, 1, 4, 1)))))))) + (((((((-1944) * mn(p, 3, 0, 3, 0, 1, 5, 2) + ((2916) * mn(p, 3, 0, 3, 0, 1, 5, 0) + (-18) * mn(p, 2, 4, 0, 2, 3, 1, 0))) + ((18) * mn(p, 2, 4, 0, 1, 3, 2, 1) + ((-18) * mn(p, 2, 4, 0, 0, 3, 3, 0) + (54) * mn(p, 2, 3, 1, 4, 2, 0, 1)))) + (((-108) * mn(p, 2, 3, 1, 3, 2, 1, 0) + ((-18) * mn(p, 2, 3, 1, 2, 4, 0, 0) + (-162) * mn(p, 2, 3, 1, 2, 2, 2, 1))) + ((18) * mn(p, 2, 3, 1, 1, 4, 1, 1) + ((54) * mn(p, 2, 3, 1, 1, 2, 3, 2) + (324) * mn(p, 2, 3, 1, 1, 2, 3, 0))))) + ((((-18) * mn(p, 2, 3, 1, 0, 4, 2, 0) + ((-108) * mn(p, 2, 3, 1, 0, 2, 4, 1) + (81) * mn(p, 2, 2, 2, 4, 1, 1, 2))) + ((162) * mn(p, 2, 2, 2, 4, 1, 1, 0) + ((54) * mn(p, 2, 2, 2, 3, 3, 0, 0) + (-972) * mn(p, 2, 2, 2, 3, 1, 2, 1)))) + (((-216) * mn(p, 2, 2, 2, 2, 3, 1, 1) + ((486) * mn(p, 2, 2, 2, 2, 1, 3, 2) + (972) * mn(p, 2, 2, 2, 2, 1, 3, 0))) + ((54) * mn(p, 2, 2, 2, 1, 3, 2, 2) + ((486) * mn(p, 2, 2, 2, 1, 3, 2, 0) + (-162) * mn(p, 2, 2, 2, 1, 1, 4, 3)))))) + (((((-324) * mn(p, 2, 2, 2, 1, 1, 4, 1) + ((-162) * mn(p, 2, 2, 2, 0, 3, 3, 1) + (243) * mn(p, 2, 2, 2, 0, 1, 5, 2))) + ((-486) * mn(p, 2, 2, 2, 0, 1, 5, 0) + ((-486) * mn(p, 2, 1, 3, 6, 0, 0, 1) + (972) * mn(p, 2, 1, 3, 5, 0, 1, 0)))) + (((81) * mn(p, 2, 1, 3, 4, 2, 0, 2) + ((162) * mn(p, 2, 1, 3, 4, 2, 0, 0) + (-243) * mn(p, 2, 1, 3, 4, 0, 2, 3))) + ((6804) * mn(p, 2, 1, 3, 4, 0, 2, 1) + ((-972) * mn(p, 2, 1, 3, 3, 2, 1, 1) + (-6318) * mn(p, 2, 1, 3, 3, 0, 3, 2))))) + ((((-7776) * mn(p, 2, 1, 3, 3, 0, 3, 0) + ((486) * mn(p, 2, 1, 3, 2, 2, 2, 2) + (972) * mn(p, 2, 1, 3, 2, 2, 2, 0))) + ((2916) * mn(p, 2, 1, 3, 2, 0, 4, 3) + ((4860) * mn(p, 2, 1, 3, 2, 0, 4, 1) + (-162) * mn(p, 2, 1, 3, 1, 2, 3, 3)))) + (((-324) * mn(p, 2, 1, 3, 1, 2, 3, 1) + ((-486) * mn(p, 2, 1, 3, 1, 0, 5, 4) + (-2430) * mn(p, 2, 1, 3, 1, 0, 5, 2))) + (((2916) * mn(p, 2, 1, 3, 1, 0, 5, 0) + (243) * mn(p, 2, 1, 3, 0, 2, 4, 2)) + ((-486) * mn(p, 2, 1, 3, 0, 2, 4, 0) + (729) * mn(p, 2, 1, 3, 0, 0, 6, 3))))))) + ((((((-1458) * mn(p, 2, 1, 3, 0, 0, 6, 1) + ((-243) * mn(p, 2, 0, 4, 5, 1, 0, 2) + (-486) * mn(p, 2, 0, 4, 5, 1, 0, 0))) + ((243) * mn(p, 2, 0, 4, 4, 1, 1, 3) + ((4374) * mn(p, 2, 0, 4, 4, 1, 1, 1) + (-5346) * mn(p, 2, 0, 4, 3, 1, 2, 2)))) + (((-6804) * mn(p, 2, 0, 4, 3, 1, 2, 0) + ((2916) * mn(p, 2, 0, 4, 2, 1, 3, 3) + (3888) * mn(p, 2, 0, 4, 2, 1, 3, 1))) + ((-486) * mn(p, 2, 0, 4, 1, 1, 4, 4) + ((-1701) * mn(p, 2, 0, 4, 1, 1, 4, 2) + (1458) * mn(p, 2, 0, 4, 1, 1, 4, 0))))) + ((((729) * mn(p, 2, 0, 4, 0, 1, 5, 3) + ((-1458) * mn(p, 2, 0, 4, 0, 1, 5, 1) + (18) * mn(p, 1, 4, 1, 2, 3, 1, 1))) + ((-72) * mn(p, 1, 4, 1, 1, 3, 2, 0) + ((18) * mn(p, 1, 4, 1, 0, 3, 3, 1) + (-108) * mn(p, 1, 3, 2, 3, 2, 1, 1)))) + (((18) * mn(p, 1, 3, 2, 2, 4, 0, 1) + ((54) * mn(p, 1, 3, 2, 2, 2, 2, 2) + (432) * mn(p, 1, 3, 2, 2, 2, 2, 0))) + (((-72) * mn(p, 1, 3, 2, 1, 4, 1, 0) + (-324) * mn(p, 1, 3, 2, 1, 2, 3, 1)) + ((18) * mn(p, 1, 3, 2, 0, 4, 2, 1) + (54) * mn(p, 1, 3, 2, 0, 2, 4, 2)))))) + (((((-162) * mn(p, 1, 2, 3, 4, 1, 1, 1) + ((-54) * mn(p, 1, 2, 3, 3, 3, 0, 1) + (162) * mn(p, 1, 2, 3, 3, 1, 2, 2))) + ((648) * mn(p, 1, 2, 3, 3, 1, 2, 0) + ((54) * mn(p, 1, 2, 3, 2, 3, 1, 2) + (216) * mn(p, 1, 2, 3, 2, 3, 1, 0)))) + (((-162) * mn(p, 1, 2, 3, 2, 1, 3, 3) + ((-270) * mn(p, 1, 2, 3, 1, 3, 2, 1) + (54) * mn(p, 1, 2, 3, 0, 3, 3, 2))) + ((972) * mn(p, 1, 1, 4, 5, 0, 1, 1) + ((-162) * mn(p, 1, 1, 4, 4, 2, 0, 1) + (-1458) * mn(p, 1, 1, 4, 4, 0, 2, 2))))) + ((((-3888) * mn(p, 1, 1, 4, 4, 0, 2, 0) + ((162) * mn(p, 1, 1, 4, 3, 2, 1, 2) + (648) * mn(p, 1, 1, 4, 3, 2, 1, 0))) + ((1458) * mn(p, 1, 1, 4, 3, 0, 3, 3) + ((1944) * mn(p, 1, 1, 4, 3, 0, 3, 1) + (-162) * mn(p, 1, 1, 4, 2, 2, 2, 3)))) + (((-486) * mn(p, 1, 1, 4, 2, 0, 4, 4) + ((486) * mn(p, 1, 0, 5, 5, 1, 0, 1) + (-972) * mn(p, 1, 0, 5, 4, 1, 1, 2))) + (((-1944) * mn(p, 1, 0, 5, 4, 1, 1, 0) + (972) * mn(p, 1, 0, 5, 3, 1, 2, 3)) + ((1944) * mn(p, 1, 0, 5, 3, 1, 2, 1) + (-486) * mn(p, 1, 0, 5, 2, 1, 3, 4))))))))),
{
    let t0 = (81) * mn(p, 4, 0, 0, 4, 0, 0, 0);
    let t1 = (-162) * mn(p, 4, 0, 0, 3, 0, 1, 1);
    let t2 = (81) * mn(p, 4, 0, 0, 2, 0, 2, 2);
    let t3 = (162) * mn(p, 4, 0, 0, 2, 0, 2, 0);
    let t4 = (-162) * mn(p, 4, 0, 0, 1, 0, 3, 1);
    let t5 = (81) * mn(p, 4, 0, 0, 0, 0, 4, 0);
    let t6 = (-162) * mn(p, 3, 0, 1, 4, 0, 0, 1);
    let t7 = (162) * mn(p, 3, 0, 1, 3, 0, 1, 2);
    let t8 = (648) * mn(p, 3, 0, 1, 3, 0, 1, 0);
    let t9 = (-972) * mn(p, 3, 0, 1, 2, 0, 2, 1);
    let t10 = (162) * mn(p, 3, 0, 1, 1, 0, 3, 2);
    let t11 = (648) * mn(p, 3, 0, 1, 1, 0, 3, 0);
    let t12 = (-162) * mn(p, 3, 0, 1, 0, 0, 4, 1);
    let t13 = (-18) * mn(p, 2, 2, 0, 2, 2, 0, 0);
    let t14 = (18) * mn(p, 2, 2, 0, 1, 2, 1, 1);
    let t15 = (-18) * mn(p, 2, 2, 0, 0, 2, 2, 0);
    let t16 = (81) * mn(p, 2, 0, 2, 4, 0, 0, 2);
    let t17 = (162) * mn(p, 2, 0, 2, 4, 0, 0, 0);
    let t18 = (-972) * mn(p, 2, 0, 2, 3, 0, 1, 1);
    let t19 = (486) * mn(p, 2, 0, 2, 2, 0, 2, 2);
    let t20 = (972) * mn(p, 2, 0, 2, 2, 0, 2, 0);
    let t21 = (-162) * mn(p, 2, 0, 2, 1, 0, 3, 3);
    let t22 = (-324) * mn(p, 2, 0, 2, 1, 0, 3, 1);
    let t23 = (243) * mn(p, 2, 0, 2, 0, 0, 4, 2);
    let t24 = (-486) * mn(p, 2, 0, 2, 0, 0, 4, 0);
    let t25 = (18) * mn(p, 1, 2, 1, 2, 2, 0, 1);
    let t26 = (-72) * mn(p, 1, 2, 1, 1, 2, 1, 0);
    let t27 = (18) * mn(p, 1, 2, 1, 0, 2, 2, 1);
    let t28 = (-162) * mn(p, 1, 0, 3, 4, 0, 0, 1);
    let t29 = (162) * mn(p, 1, 0, 3, 3, 0, 1, 2);
    let t30 = (648) * mn(p, 1, 0, 3, 3, 0, 1, 0);
    let t31 = (-162) * mn(p, 1, 0, 3, 2, 0, 2, 3);
    let s0 = (3) * mn(p, 2, 0, 0, 1, 1, 0, 0);
    let s1 = (3) * mn(p, 1, 1, 0, 2, 0, 0, 0);
    let s2 = (-3) * mn(p, 1, 1, 0, 0, 0, 2, 0);
    let s3 = (-6) * mn(p, 1, 0, 1, 0, 1, 1, 0);
    let s4 = (1) * mn(p, 0, 2, 0, 0, 1, 1, 0);
    let s5 = (-6) * mn(p, 0, 1, 1, 1, 0, 1, 0);
    let s6 = (1) * mn(p, 0, 1, 1, 0, 2, 0, 0);
    let s7 = (3) * mn(p, 0, 1, 1, 0, 0, 2, 1);
    let s8 = (-3) * mn(p, 0, 0, 2, 1, 1, 0, 0);
    let s9 = (3) * mn(p, 0, 0, 2, 0, 1, 1, 1);
    let pp0 = t0;
    let pp1 = pp0 + t1;
    let pp2 = pp1 + t2;
    let pp3 = pp2 + t3;
    let pp4 = pp3 + t4;
    let pp5 = pp4 + t5;
    let pp6 = pp5 + t6;
    let pp7 = pp6 + t7;
    let pp8 = pp7 + t8;
    let pp9 = pp8 + t9;
    let pp10 = pp9 + t10;
    let pp11 = pp10 + t11;
    let pp12 = pp11 + t12;
    let pp13 = pp12 + t13;
    let pp14 = pp13 + t14;
    let pp15 = pp14 + t15;
    let pp16 = pp15 + t16;
    let pp17 = pp16 + t17;
    let pp18 = pp17 + t18;
    let pp19 = pp18 + t19;
    let pp20 = pp19 + t20;
    let pp21 = pp20 + t21;
    let pp22 = pp21 + t22;
    let pp23 = pp22 + t23;
    let pp24 = pp23 + t24;
    let pp25 = pp24 + t25;
    let pp26 = pp25 + t26;
    let pp27 = pp26 + t27;
    let pp28 = pp27 + t28;
    let pp29 = pp28 + t29;
    let pp30 = pp29 + t30;
    let pp31 = pp30 + t31;
    let qq0 = s0;
    let qq1 = qq0 + s1;
    let qq2 = qq1 + s2;
    let qq3 = qq2 + s3;
    let qq4 = qq3 + s4;
    let qq5 = qq4 + s5;
    let qq6 = qq5 + s6;
    let qq7 = qq6 + s7;
    let qq8 = qq7 + s8;
    let qq9 = qq8 + s9;
    let q = qq9;
    lemma_mul_is_distributive_add_other_way(q, pp0, t1);
    lemma_mul_is_distributive_add_other_way(q, pp1, t2);
    lemma_mul_is_distributive_add_other_way(q, pp2, t3);
    lemma_mul_is_distributive_add_other_way(q, pp3, t4);
    lemma_mul_is_distributive_add_other_way(q, pp4, t5);
    lemma_mul_is_distributive_add_other_way(q, pp5, t6);
    lemma_mul_is_distributive_add_other_way(q, pp6, t7);
    lemma_mul_is_distributive_add_other_way(q, pp7, t8);
    lemma_mul_is_distributive_add_other_way(q, pp8, t9);
    lemma_mul_is_distributive_add_other_way(q, pp9, t10);
    lemma_mul_is_distributive_add_other_way(q, pp10, t11);
    lemma_mul_is_distributive_add_other_way(q, pp11, t12);
    lemma_mul_is_distributive_add_other_way(q, pp12, t13);
    lemma_mul_is_distributive_add_other_way(q, pp13, t14);
    lemma_mul_is_distributive_add_other_way(q, pp14, t15);
    lemma_mul_is_distributive_add_other_way(q, pp15, t16);
    lemma_mul_is_distributive_add_other_way(q, pp16, t17);
    lemma_mul_is_distributive_add_other_way(q, pp17, t18);
    lemma_mul_is_distributive_add_other_way(q, pp18, t19);
    lemma_mul_is_distributive_add_other_way(q, pp19, t20);
    lemma_mul_is_distributive_add_other_way(q, pp20, t21);
    lemma_mul_is_distributive_add_other_way(q, pp21, t22);
    lemma_mul_is_distributive_add_other_way(q, pp22, t23);
    lemma_mul_is_distributive_add_other_way(q, pp23, t24);
    lemma_mul_is_distributive_add_other_way(q, pp24, t25);
    lemma_mul_is_distributive_add_other_way(q, pp25, t26);
    lemma_mul_is_distributive_add_other_way(q, pp26, t27);
    lemma_mul_is_distributive_add_other_way(q, pp27, t28);
    lemma_mul_is_distributive_add_other_way(q, pp28, t29);
    lemma_mul_is_distributive_add_other_way(q, pp29, t30);
    lemma_mul_is_distributive_add_other_way(q, pp30, t31);
    lemma_mul_is_distributive_add(t0, qq0, s1);
    lemma_mul_is_distributive_add(t0, qq1, s2);
    lemma_mul_is_distributive_add(t0, qq2, s3);
    lemma_mul_is_distributive_add(t0, qq3, s4);
    lemma_mul_is_distributive_add(t0, qq4, s5);
    lemma_mul_is_distributive_add(t0, qq5, s6);
    lemma_mul_is_distributive_add(t0, qq6, s7);
    lemma_mul_is_distributive_add(t0, qq7, s8);
    lemma_mul_is_distributive_add(t0, qq8, s9);
    lemma_mul_is_distributive_add(t1, qq0, s1);
    lemma_mul_is_distributive_add(t1, qq1, s2);
    lemma_mul_is_distributive_add(t1, qq2, s3);
    lemma_mul_is_distributive_add(t1, qq3, s4);
    lemma_mul_is_distributive_add(t1, qq4, s5);
    lemma_mul_is_distributive_add(t1, qq5, s6);
    lemma_mul_is_distributive_add(t1, qq6, s7);
    lemma_mul_is_distributive_add(t1, qq7, s8);
    lemma_mul_is_distributive_add(t1, qq8, s9);
    lemma_mul_is_distributive_add(t2, qq0, s1);
    lemma_mul_is_distributive_add(t2, qq1, s2);
    lemma_mul_is_distributive_add(t2, qq2, s3);
    lemma_mul_is_distributive_add(t2, qq3, s4);
    lemma_mul_is_distributive_add(t2, qq4, s5);
    lemma_mul_is_distributive_add(t2, qq5, s6);
    lemma_mul_is_distributive_add(t2, qq6, s7);
    lemma_mul_is_distributive_add(t2, qq7, s8);
    lemma_mul_is_distributive_add(t2, qq8, s9);
    lemma_mul_is_distributive_add(t3, qq0, s1);
    lemma_mul_is_distributive_add(t3, qq1, s2);
    lemma_mul_is_distributive_add(t3, qq2, s3);
    lemma_mul_is_distributive_add(t3, qq3, s4);
    lemma_mul_is_distributive_add(t3, qq4, s5);
    lemma_mul_is_distributive_add(t3, qq5, s6);
    lemma_mul_is_distributive_add(t3, qq6, s7);
    lemma_mul_is_distributive_add(t3, qq7, s8);
    lemma_mul_is_distributive_add(t3, qq8, s9);
    lemma_mul_is_distributive_add(t4, qq0, s1);
    lemma_mul_is_distributive_add(t4, qq1, s2);
    lemma_mul_is_distributive_add(t4, qq2, s3);
    lemma_mul_is_distributive_add(t4, qq3, s4);
    lemma_mul_is_distributive_add(t4, qq4, s5);
    lemma_mul_is_distributive_add(t4, qq5, s6);
    lemma_mul_is_distributive_add(t4, qq6, s7);
    lemma_mul_is_distributive_add(t4, qq7, s8);
    lemma_mul_is_distributive_add(t4, qq8, s9);
    lemma_mul_is_distributive_add(t5, qq0, s1);
    lemma_mul_is_distributive_add(t5, qq1, s2);
    lemma_mul_is_distributive_add(t5, qq2, s3);
    lemma_mul_is_distributive_add(t5, qq3, s4);
    lemma_mul_is_distributive_add(t5, qq4, s5);
    lemma_mul_is_distributive_add(t5, qq5, s6);
    lemma_mul_is_distributive_add(t5, qq6, s7);
    lemma_mul_is_distributive_add(t5, qq7, s8);
    lemma_mul_is_distributive_add(t5, qq8, s9);
    lemma_mul_is_distributive_add(t6, qq0, s1);
    lemma_mul_is_distributive_add(t6, qq1, s2);
    lemma_mul_is_distributive_add(t6, qq2, s3);
    lemma_mul_is_distributive_add(t6, qq3, s4);
    lemma_mul_is_distributive_add(t6, qq4, s5);
    lemma_mul_is_distributive_add(t6, qq5, s6);
    lemma_mul_is_distributive_add(t6, qq6, s7);
    lemma_mul_is_distributive_add(t6, qq7, s8);
    lemma_mul_is_distributive_add(t6, qq8, s9);
    lemma_mul_is_distributive_add(t7, qq0, s1);
    lemma_mul_is_distributive_add(t7, qq1, s2);
    lemma_mul_is_distributive_add(t7, qq2, s3);
    lemma_mul_is_distributive_add(t7, qq3, s4);
    lemma_mul_is_distributive_add(t7, qq4, s5);
    lemma_mul_is_distributive_add(t7, qq5, s6);
    lemma_mul_is_distributive_add(t7, qq6, s7);
    lemma_mul_is_distributive_add(t7, qq7, s8);
    lemma_mul_is_distributive_add(t7, qq8, s9);
    lemma_mul_is_distributive_add(t8, qq0, s1);
    lemma_mul_is_distributive_add(t8, qq1, s2);
    lemma_mul_is_distributive_add(t8, qq2, s3);
    lemma_mul_is_distributive_add(t8, qq3, s4);
    lemma_mul_is_distributive_add(t8, qq4, s5);
    lemma_mul_is_distributive_add(t8, qq5, s6);
    lemma_mul_is_distributive_add(t8, qq6, s7);
    lemma_mul_is_distributive_add(t8, qq7, s8);
    lemma_mul_is_distributive_add(t8, qq8, s9);
    lemma_mul_is_distributive_add(t9, qq0, s1);
    lemma_mul_is_distributive_add(t9, qq1, s2);
    lemma_mul_is_distributive_add(t9, qq2, s3);
    lemma_mul_is_distributive_add(t9, qq3, s4);
    lemma_mul_is_distributive_add(t9, qq4, s5);
    lemma_mul_is_distributive_add(t9, qq5, s6);
    lemma_mul_is_distributive_add(t9, qq6, s7);
    lemma_mul_is_distributive_add(t9, qq7, s8);
    lemma_mul_is_distributive_add(t9, qq8, s9);
    lemma_mul_is_distributive_add(t10, qq0, s1);
    lemma_mul_is_distributive_add(t10, qq1, s2);
    lemma_mul_is_distributive_add(t10, qq2, s3);
    lemma_mul_is_distributive_add(t10, qq3, s4);
    lemma_mul_is_distributive_add(t10, qq4, s5);
    lemma_mul_is_distributive_add(t10, qq5, s6);
    lemma_mul_is_distributive_add(t10, qq6, s7);
    lemma_mul_is_distributive_add(t10, qq7, s8);
    lemma_mul_is_distributive_add(t10, qq8, s9);
    lemma_mul_is_distributive_add(t11, qq0, s1);
    lemma_mul_is_distributive_add(t11, qq1, s2);
    lemma_mul_is_distributive_add(t11, qq2, s3);
    lemma_mul_is_distributive_add(t11, qq3, s4);
    lemma_mul_is_distributive_add(t11, qq4, s5);
    lemma_mul_is_distributive_add(t11, qq5, s6);
    lemma_mul_is_distributive_add(t11, qq6, s7);
    lemma_mul_is_distributive_add(t11, qq7, s8);
    lemma_mul_is_distributive_add(t11, qq8, s9);
    lemma_mul_is_distributive_add(t12, qq0, s1);
    lemma_mul_is_distributive_add(t12, qq1, s2);
    lemma_mul_is_distributive_add(t12, qq2, s3);
    lemma_mul_is_distributive_add(t12, qq3, s4);
    lemma_mul_is_distributive_add(t12, qq4, s5);
    lemma_mul_is_distributive_add(t12, qq5, s6);
    lemma_mul_is_distributive_add(t12, qq6, s7);
    lemma_mul_is_distributive_add(t12, qq7, s8);
    lemma_mul_is_distributive_add(t12, qq8, s9);
    lemma_mul_is_distributive_add(t13, qq0, s1);
    lemma_mul_is_distributive_add(t13, qq1, s2);
    lemma_mul_is_distributive_add(t13, qq2, s3);
    lemma_mul_is_distributive_add(t13, qq3, s4);
    lemma_mul_is_distributive_add(t13, qq4, s5);
    lemma_mul_is_distributive_add(t13, qq5, s6);
    lemma_mul_is_distributive_add(t13, qq6, s7);
    lemma_mul_is_distributive_add(t13, qq7, s8);
    lemma_mul_is_distributive_add(t13, qq8, s9);
    lemma_mul_is_distributive_add(t14, qq0, s1);
    lemma_mul_is_distributive_add(t14, qq1, s2);
    lemma_mul_is_distributive_add(t14, qq2, s3);
    lemma_mul_is_distributive_add(t14, qq3, s4);
    lemma_mul_is_distributive_add(t14, qq4, s5);
    lemma_mul_is_distributive_add(t14, qq5, s6);
    lemma_mul_is_distributive_add(t14, qq6, s7);
    lemma_mul_is_distributive_add(t14, qq7, s8);
    lemma_mul_is_distributive_add(t14, qq8, s9);
    lemma_mul_is_distributive_add(t15, qq0, s1);
    lemma_mul_is_distributive_add(t15, qq1, s2);
    lemma_mul_is_distributive_add(t15, qq2, s3);
    lemma_mul_is_distributive_add(t15, qq3, s4);
    lemma_mul_is_distributive_add(t15, qq4, s5);
    lemma_mul_is_distributive_add(t15, qq5, s6);
    lemma_mul_is_distributive_add(t15, qq6, s7);
    lemma_mul_is_distributive_add(t15, qq7, s8);
    lemma_mul_is_distributive_add(t15, qq8, s9);
    lemma_mul_is_distributive_add(t16, qq0, s1);
    lemma_mul_is_distributive_add(t16, qq1, s2);
    lemma_mul_is_distributive_add(t16, qq2, s3);
    lemma_mul_is_distributive_add(t16, qq3, s4);
    lemma_mul_is_distributive_add(t16, qq4, s5);
    lemma_mul_is_distributive_add(t16, qq5, s6);
    lemma_mul_is_distributive_add(t16, qq6, s7);
    lemma_mul_is_distributive_add(t16, qq7, s8);
    lemma_mul_is_distributive_add(t16, qq8, s9);
    lemma_mul_is_distributive_add(t17, qq0, s1);
    lemma_mul_is_distributive_add(t17, qq1, s2);
    lemma_mul_is_distributive_add(t17, qq2, s3);
    lemma_mul_is_distributive_add(t17, qq3, s4);
    lemma_mul_is_distributive_add(t17, qq4, s5);
    lemma_mul_is_distributive_add(t17, qq5, s6);
    lemma_mul_is_distributive_add(t17, qq6, s7);
    lemma_mul_is_distributive_add(t17, qq7, s8);
    lemma_mul_is_distributive_add(t17, qq8, s9);
    lemma_mul_is_distributive_add(t18, qq0, s1);
    lemma_mul_is_distributive_add(t18, qq1, s2);
    lemma_mul_is_distributive_add(t18, qq2, s3);
    lemma_mul_is_distributive_add(t18, qq3, s4);
    lemma_mul_is_distributive_add(t18, qq4, s5);
    lemma_mul_is_distributive_add(t18, qq5, s6);
    lemma_mul_is_distributive_add(t18, qq6, s7);
    lemma_mul_is_distributive_add(t18, qq7, s8);
    lemma_mul_is_distributive_add(t18, qq8, s9);
    lemma_mul_is_distributive_add(t19, qq0, s1);
    lemma_mul_is_distributive_add(t19, qq1, s2);
    lemma_mul_is_distributive_add(t19, qq2, s3);
    lemma_mul_is_distributive_add(t19, qq3, s4);
    lemma_mul_is_distributive_add(t19, qq4, s5);
    lemma_mul_is_distributive_add(t19, qq5, s6);
    lemma_mul_is_distributive_add(t19, qq6, s7);
    lemma_mul_is_distributive_add(t19, qq7, s8);
    lemma_mul_is_distributive_add(t19, qq8, s9);
    lemma_mul_is_distributive_add(t20, qq0, s1);
    lemma_mul_is_distributive_add(t20, qq1, s2);
    lemma_mul_is_distributive_add(t20, qq2, s3);
    lemma_mul_is_distributive_add(t20, qq3, s4);
    lemma_mul_is_distributive_add(t20, qq4, s5);
    lemma_mul_is_distributive_add(t20, qq5, s6);
    lemma_mul_is_distributive_add(t20, qq6, s7);
    lemma_mul_is_distributive_add(t20, qq7, s8);
    lemma_mul_is_distributive_add(t20, qq8, s9);
    lemma_mul_is_distributive_add(t21, qq0, s1);
    lemma_mul_is_distributive_add(t21, qq1, s2);
    lemma_mul_is_distributive_add(t21, qq2, s3);
    lemma_mul_is_distributive_add(t21, qq3, s4);
    lemma_mul_is_distributive_add(t21, qq4, s5);
    lemma_mul_is_distributive_add(t21, qq5, s6);
    lemma_mul_is_distributive_add(t21, qq6, s7);
    lemma_mul_is_distributive_add(t21, qq7, s8);
    lemma_mul_is_distributive_add(t21, qq8, s9);
    lemma_mul_is_distributive_add(t22, qq0, s1);
    lemma_mul_is_distributive_add(t22, qq1, s2);
    lemma_mul_is_distributive_add(t22, qq2, s3);
    lemma_mul_is_distributive_add(t22, qq3, s4);
    lemma_mul_is_distributive_add(t22, qq4, s5);
    lemma_mul_is_distributive_add(t22, qq5, s6);
    lemma_mul_is_distributive_add(t22, qq6, s7);
    lemma_mul_is_distributive_add(t22, qq7, s8);
    lemma_mul_is_distributive_add(t22, qq8, s9);
    lemma_mul_is_distributive_add(t23, qq0, s1);
    lemma_mul_is_distributive_add(t23, qq1, s2);
    lemma_mul_is_distributive_add(t23, qq2, s3);
    lemma_mul_is_distributive_add(t23, qq3, s4);
    lemma_mul_is_distributive_add(t23, qq4, s5);
    lemma_mul_is_distributive_add(t23, qq5, s6);
    lemma_mul_is_distributive_add(t23, qq6, s7);
    lemma_mul_is_distributive_add(t23, qq7, s8);
    lemma_mul_is_distributive_add(t23, qq8, s9);
    lemma_mul_is_distributive_add(t24, qq0, s1);
    lemma_mul_is_distributive_add(t24, qq1, s2);
    lemma_mul_is_distributive_add(t24, qq2, s3);
    lemma_mul_is_distributive_add(t24, qq3, s4);
    lemma_mul_is_distributive_add(t24, qq4, s5);
    lemma_mul_is_distributive_add(t24, qq5, s6);
    lemma_mul_is_distributive_add(t24, qq6, s7);
    lemma_mul_is_distributive_add(t24, qq7, s8);
    lemma_mul_is_distributive_add(t24, qq8, s9);
    lemma_mul_is_distributive_add(t25, qq0, s1);
    lemma_mul_is_distributive_add(t25, qq1, s2);
    lemma_mul_is_distributive_add(t25, qq2, s3);
    lemma_mul_is_distributive_add(t25, qq3, s4);
    lemma_mul_is_distributive_add(t25, qq4, s5);
    lemma_mul_is_distributive_add(t25, qq5, s6);
    lemma_mul_is_distributive_add(t25, qq6, s7);
    lemma_mul_is_distributive_add(t25, qq7, s8);
    lemma_mul_is_distributive_add(t25, qq8, s9);
    lemma_mul_is_distributive_add(t26, qq0, s1);
    lemma_mul_is_distributive_add(t26, qq1, s2);
    lemma_mul_is_distributive_add(t26, qq2, s3);
    lemma_mul_is_distributive_add(t26, qq3, s4);
    lemma_mul_is_distributive_add(t26, qq4, s5);
    lemma_mul_is_distributive_add(t26, qq5, s6);
    lemma_mul_is_distributive_add(t26, qq6, s7);
    lemma_mul_is_distributive_add(t26, qq7, s8);
    lemma_mul_is_distributive_add(t26, qq8, s9);
    lemma_mul_is_distributive_add(t27, qq0, s1);
    lemma_mul_is_distributive_add(t27, qq1, s2);
    lemma_mul_is_distributive_add(t27, qq2, s3);
    lemma_mul_is_distributive_add(t27, qq3, s4);
    lemma_mul_is_distributive_add(t27, qq4, s5);
    lemma_mul_is_distributive_add(t27, qq5, s6);
    lemma_mul_is_distributive_add(t27, qq6, s7);
    lemma_mul_is_distributive_add(t27, qq7, s8);
    lemma_mul_is_distributive_add(t27, qq8, s9);
    lemma_mul_is_distributive_add(t28, qq0, s1);
    lemma_mul_is_distributive_add(t28, qq1, s2);
    lemma_mul_is_distributive_add(t28, qq2, s3);
    lemma_mul_is_distributive_add(t28, qq3, s4);
    lemma_mul_is_distributive_add(t28, qq4, s5);
    lemma_mul_is_distributive_add(t28, qq5, s6);
    lemma_mul_is_distributive_add(t28, qq6, s7);
    lemma_mul_is_distributive_add(t28, qq7, s8);
    lemma_mul_is_distributive_add(t28, qq8, s9);
    lemma_mul_is_distributive_add(t29, qq0, s1);
    lemma_mul_is_distributive_add(t29, qq1, s2);
    lemma_mul_is_distributive_add(t29, qq2, s3);
    lemma_mul_is_distributive_add(t29, qq3, s4);
    lemma_mul_is_distributive_add(t29, qq4, s5);
    lemma_mul_is_distributive_add(t29, qq5, s6);
    lemma_mul_is_distributive_add(t29, qq6, s7);
    lemma_mul_is_distributive_add(t29, qq7, s8);
    lemma_mul_is_distributive_add(t29, qq8, s9);
    lemma_mul_is_distributive_add(t30, qq0, s1);
    lemma_mul_is_distributive_add(t30, qq1, s2);
    lemma_mul_is_distributive_add(t30, qq2, s3);
    lemma_mul_is_distributive_add(t30, qq3, s4);
    lemma_mul_is_distributive_add(t30, qq4, s5);
    lemma_mul_is_distributive_add(t30, qq5, s6);
    lemma_mul_is_distributive_add(t30, qq6, s7);
    lemma_mul_is_distributive_add(t30, qq7, s8);
    lemma_mul_is_distributive_add(t30, qq8, s9);
    lemma_mul_is_distributive_add(t31, qq0, s1);
    lemma_mul_is_distributive_add(t31, qq1, s2);
    lemma_mul_is_distributive_add(t31, qq2, s3);
    lemma_mul_is_distributive_add(t31, qq3, s4);
    lemma_mul_is_distributive_add(t31, qq4, s5);
    lemma_mul_is_distributive_add(t31, qq5, s6);
    lemma_mul_is_distributive_add(t31, qq6, s7);
    lemma_mul_is_distributive_add(t31, qq7, s8);
    lemma_mul_is_distributive_add(t31, qq8, s9);
    lemma_tm(p, 81, 4, 0, 0, 4, 0, 0, 0, 3, 2, 0, 0, 1, 1, 0, 0);
    assert(t0 * s0 == (243) * mn(p, 6, 0, 0, 5, 1, 0, 0));
    lemma_tm(p, 81, 4, 0, 0, 4, 0, 0, 0, 3, 1, 1, 0, 2, 0, 0, 0);
    assert(t0 * s1 == (243) * mn(p, 5, 1, 0, 6, 0, 0, 0));
    lemma_tm(p, 81, 4, 0, 0, 4, 0, 0, 0, -3, 1, 1, 0, 0, 0, 2, 0);
    assert(t0 * s2 == (-243) * mn(p, 5, 1, 0, 4, 0, 2, 0));
    lemma_tm(p, 81, 4, 0, 0, 4, 0, 0, 0, -6, 1, 0, 1, 0, 1, 1, 0);
    assert(t0 * s3 == (-486) * mn(p, 5, 0, 1, 4, 1, 1, 0));
    lemma_tm(p, 81, 4, 0, 0, 4, 0, 0, 0, 1, 0, 2, 0, 0, 1, 1, 0);
    assert(t0 * s4 == (81) * mn(p, 4, 2, 0, 4, 1, 1, 0));
    lemma_tm(p, 81, 4, 0, 0, 4, 0, 0, 0, -6, 0, 1, 1, 1, 0, 1, 0);
    assert(t0 * s5 == (-486) * mn(p, 4, 1, 1, 5, 0, 1, 0));
    lemma_tm(p, 81, 4, 0, 0, 4, 0, 0, 0, 1, 0, 1, 1, 0, 2, 0, 0);
    assert(t0 * s6 == (81) * mn(p, 4, 1, 1, 4, 2, 0, 0));
    lemma_tm(p, 81, 4, 0, 0, 4, 0, 0, 0, 3, 0, 1, 1, 0, 0, 2, 1);
    assert(t0 * s7 == (243) * mn(p, 4, 1, 1, 4, 0, 2, 1));
    lemma_tm(p, 81, 4, 0, 0, 4, 0, 0, 0, -3, 0, 0, 2, 1, 1, 0, 0);
    assert(t0 * s8 == (-243) * mn(p, 4, 0, 2, 5, 1, 0, 0));
    lemma_tm(p, 81, 4, 0, 0, 4, 0, 0, 0, 3, 0, 0, 2, 0, 1, 1, 1);
    assert(t0 * s9 == (243) * mn(p, 4, 0, 2, 4, 1, 1, 1));
    assert(t0 * q == (243) * mn(p, 6, 0, 0, 5, 1, 0, 0) + (243) * mn(p, 5, 1, 0, 6, 0, 0, 0) + (-243) * mn(p, 5, 1, 0, 4, 0, 2, 0) + (-486) * mn(p, 5, 0, 1, 4, 1, 1, 0) + (81) * mn(p, 4, 2, 0, 4, 1, 1, 0) + (-486) * mn(p, 4, 1, 1, 5, 0, 1, 0) + (81) * mn(p, 4, 1, 1, 4, 2, 0, 0) + (243) * mn(p, 4, 1, 1, 4, 0, 2, 1) + (-243) * mn(p, 4, 0, 2, 5, 1, 0, 0) + (243) * mn(p, 4, 0, 2, 4, 1, 1, 1));
    lemma_tm(p, -162, 4, 0, 0, 3, 0, 1, 1, 3, 2, 0, 0, 1, 1, 0, 0);
    assert(t1 * s0 == (-486) * mn(p, 6, 0, 0, 4, 1, 1, 1));
    lemma_tm(p, -162, 4, 0, 0, 3, 0, 1, 1, 3, 1, 1, 0, 2, 0, 0, 0);
    assert(t1 * s1 == (-486) * mn(p, 5, 1, 0, 5, 0, 1, 1));
    lemma_tm(p, -162, 4, 0, 0, 3, 0, 1, 1, -3, 1, 1, 0, 0, 0, 2, 0);
    assert(t1 * s2 == (486) * mn(p, 5, 1, 0, 3, 0, 3, 1));
    lemma_tm(p, -162, 4, 0, 0, 3, 0, 1, 1, -6, 1, 0, 1, 0, 1, 1, 0);
    assert(t1 * s3 == (972) * mn(p, 5, 0, 1, 3, 1, 2, 1));
    lemma_tm(p, -162, 4, 0, 0, 3, 0, 1, 1, 1, 0, 2, 0, 0, 1, 1, 0);
    assert(t1 * s4 == (-162) * mn(p, 4, 2, 0, 3, 1, 2, 1));
    lemma_tm(p, -162, 4, 0, 0, 3, 0, 1, 1, -6, 0, 1, 1, 1, 0, 1, 0);
    assert(t1 * s5 == (972) * mn(p, 4, 1, 1, 4, 0, 2, 1));
    lemma_tm(p, -162, 4, 0, 0, 3, 0, 1, 1, 1, 0, 1, 1, 0, 2, 0, 0);
    assert(t1 * s6 == (-162) * mn(p, 4, 1, 1, 3, 2, 1, 1));
    lemma_tm(p, -162, 4, 0, 0, 3, 0, 1, 1, 3, 0, 1, 1, 0, 0, 2, 1);
    assert(t1 * s7 == (-486) * mn(p, 4, 1, 1, 3, 0, 3, 2));
    lemma_tm(p, -162, 4, 0, 0, 3, 0, 1, 1, -3, 0, 0, 2, 1, 1, 0, 0);
    assert(t1 * s8 == (486) * mn(p, 4, 0, 2, 4, 1, 1, 1));
    lemma_tm(p, -162, 4, 0, 0, 3, 0, 1, 1, 3, 0, 0, 2, 0, 1, 1, 1);
    assert(t1 * s9 == (-486) * mn(p, 4, 0, 2, 3, 1, 2, 2));
    assert(t1 * q == (-486) * mn(p, 6, 0, 0, 4, 1, 1, 1) + (-486) * mn(p, 5, 1, 0, 5, 0, 1, 1) + (486) * mn(p, 5, 1, 0, 3, 0, 3, 1) + (972) * mn(p, 5, 0, 1, 3, 1, 2, 1) + (-162) * mn(p, 4, 2, 0, 3, 1, 2, 1) + (972) * mn(p, 4, 1, 1, 4, 0, 2, 1) + (-162) * mn(p, 4, 1, 1, 3, 2, 1, 1) + (-486) * mn(p, 4, 1, 1, 3, 0, 3, 2) + (486) * mn(p, 4, 0, 2, 4, 1, 1, 1) + (-486) * mn(p, 4, 0, 2, 3, 1, 2, 2));
    lemma_tm(p, 81, 4, 0, 0, 2, 0, 2, 2, 3, 2, 0, 0, 1, 1, 0, 0);
    assert(t2 * s0 == (243) * mn(p, 6, 0, 0, 3, 1, 2, 2));
    lemma_tm(p, 81, 4, 0, 0, 2, 0, 2, 2, 3, 1, 1, 0, 2, 0, 0, 0);
    assert(t2 * s1 == (243) * mn(p, 5, 1, 0, 4, 0, 2, 2));
    lemma_tm(p, 81, 4, 0, 0, 2, 0, 2, 2, -3, 1, 1, 0, 0, 0, 2, 0);
    assert(t2 * s2 == (-243) * mn(p, 5, 1, 0, 2, 0, 4, 2));
    lemma_tm(p, 81, 4, 0, 0, 2, 0, 2, 2, -6, 1, 0, 1, 0, 1, 1, 0);
    assert(t2 * s3 == (-486) * mn(p, 5, 0, 1, 2, 1, 3, 2));
    lemma_tm(p, 81, 4, 0, 0, 2, 0, 2, 2, 1, 0, 2, 0, 0, 1, 1, 0);
    assert(t2 * s4 == (81) * mn(p, 4, 2, 0, 2, 1, 3, 2));
    lemma_tm(p, 81, 4, 0, 0, 2, 0, 2, 2, -6, 0, 1, 1, 1, 0, 1, 0);
    assert(t2 * s5 == (-486) * mn(p, 4, 1, 1, 3, 0, 3, 2));
    lemma_tm(p, 81, 4, 0, 0, 2, 0, 2, 2, 1, 0, 1, 1, 0, 2, 0, 0);
    assert(t2 * s6 == (81) * mn(p, 4, 1, 1, 2, 2, 2, 2));
    lemma_tm(p, 81, 4, 0, 0, 2, 0, 2, 2, 3, 0, 1, 1, 0, 0, 2, 1);
    assert(t2 * s7 == (243) * mn(p, 4, 1, 1, 2, 0, 4, 3));
    lemma_tm(p, 81, 4, 0, 0, 2, 0, 2, 2, -3, 0, 0, 2, 1, 1, 0, 0);
    assert(t2 * s8 == (-243) * mn(p, 4, 0, 2, 3, 1, 2, 2));
    lemma_tm(p, 81, 4, 0, 0, 2, 0, 2, 2, 3, 0, 0, 2, 0, 1, 1, 1);
    assert(t2 * s9 == (243) * mn(p, 4, 0, 2, 2, 1, 3, 3));
    assert(t2 * q == (243) * mn(p, 6, 0, 0, 3, 1, 2, 2) + (243) * mn(p, 5, 1, 0, 4, 0, 2, 2) + (-243) * mn(p, 5, 1, 0, 2, 0, 4, 2) + (-486) * mn(p, 5, 0, 1, 2, 1, 3, 2) + (81) * mn(p, 4, 2, 0, 2, 1, 3, 2) + (-486) * mn(p, 4, 1, 1, 3, 0, 3, 2) + (81) * mn(p, 4, 1, 1, 2, 2, 2, 2) + (243) * mn(p, 4, 1, 1, 2, 0, 4, 3) + (-243) * mn(p, 4, 0, 2, 3, 1, 2, 2) + (243) * mn(p, 4, 0, 2, 2, 1, 3, 3));
    lemma_tm(p, 162, 4, 0, 0, 2, 0, 2, 0, 3, 2, 0, 0, 1, 1, 0, 0);
    assert(t3 * s0 == (486) * mn(p, 6, 0, 0, 3, 1, 2, 0));
    lemma_tm(p, 162, 4, 0, 0, 2, 0, 2, 0, 3, 1, 1, 0, 2, 0, 0, 0);
    assert(t3 * s1 == (486) * mn(p, 5, 1, 0, 4, 0, 2, 0));
    lemma_tm(p, 162, 4, 0, 0, 2, 0, 2, 0, -3, 1, 1, 0, 0, 0, 2, 0);
    assert(t3 * s2 == (-486) * mn(p, 5, 1, 0, 2, 0, 4, 0));
    lemma_tm(p, 162, 4, 0, 0, 2, 0, 2, 0, -6, 1, 0, 1, 0, 1, 1, 0);
    assert(t3 * s3 == (-972) * mn(p, 5, 0, 1, 2, 1, 3, 0));
    lemma_tm(p, 162, 4, 0, 0, 2, 0, 2, 0, 1, 0, 2, 0, 0, 1, 1, 0);
    assert(t3 * s4 == (162) * mn(p, 4, 2, 0, 2, 1, 3, 0));
    lemma_tm(p, 162, 4, 0, 0, 2, 0, 2, 0, -6, 0, 1, 1, 1, 0, 1, 0);
    assert(t3 * s5 == (-972) * mn(p, 4, 1, 1, 3, 0, 3, 0));
    lemma_tm(p, 162, 4, 0, 0, 2, 0, 2, 0, 1, 0, 1, 1, 0, 2, 0, 0);
    assert(t3 * s6 == (162) * mn(p, 4, 1, 1, 2, 2, 2, 0));
    lemma_tm(p, 162, 4, 0, 0, 2, 0, 2, 0, 3, 0, 1, 1, 0, 0, 2, 1);
    assert(t3 * s7 == (486) * mn(p, 4, 1, 1, 2, 0, 4, 1));
    lemma_tm(p, 162, 4, 0, 0, 2, 0, 2, 0, -3, 0, 0, 2, 1, 1, 0, 0);
    assert(t3 * s8 == (-486) * mn(p, 4, 0, 2, 3, 1, 2, 0));
    lemma_tm(p, 162, 4, 0, 0, 2, 0, 2, 0, 3, 0, 0, 2, 0, 1, 1, 1);
    assert(t3 * s9 == (486) * mn(p, 4, 0, 2, 2, 1, 3, 1));
    assert(t3 * q == (486) * mn(p, 6, 0, 0, 3, 1, 2, 0) + (486) * mn(p, 5, 1, 0, 4, 0, 2, 0) + (-486) * mn(p, 5, 1, 0, 2, 0, 4, 0) + (-972) * mn(p, 5, 0, 1, 2, 1, 3, 0) + (162) * mn(p, 4, 2, 0, 2, 1, 3, 0) + (-972) * mn(p, 4, 1, 1, 3, 0, 3, 0) + (162) * mn(p, 4, 1, 1, 2, 2, 2, 0) + (486) * mn(p, 4, 1, 1, 2, 0, 4, 1) + (-486) * mn(p, 4, 0, 2, 3, 1, 2, 0) + (486) * mn(p, 4, 0, 2, 2, 1, 3, 1));
    lemma_tm(p, -162, 4, 0, 0, 1, 0, 3, 1, 3, 2, 0, 0, 1, 1, 0, 0);
    assert(t4 * s0 == (-486) * mn(p, 6, 0, 0, 2, 1, 3, 1));
    lemma_tm(p, -162, 4, 0, 0, 1, 0, 3, 1, 3, 1, 1, 0, 2, 0, 0, 0);
    assert(t4 * s1 == (-486) * mn(p, 5, 1, 0, 3, 0, 3, 1));
    lemma_tm(p, -162, 4, 0, 0, 1, 0, 3, 1, -3, 1, 1, 0, 0, 0, 2, 0);
    assert(t4 * s2 == (486) * mn(p, 5, 1, 0, 1, 0, 5, 1));
    lemma_tm(p, -162, 4, 0, 0, 1, 0, 3, 1, -6, 1, 0, 1, 0, 1, 1, 0);
    assert(t4 * s3 == (972) * mn(p, 5, 0, 1, 1, 1, 4, 1));
    lemma_tm(p, -162, 4, 0, 0, 1, 0, 3, 1, 1, 0, 2, 0, 0, 1, 1, 0);
    assert(t4 * s4 == (-162) * mn(p, 4, 2, 0, 1, 1, 4, 1));
    lemma_tm(p, -162, 4, 0, 0, 1, 0, 3, 1, -6, 0, 1, 1, 1, 0, 1, 0);
    assert(t4 * s5 == (972) * mn(p, 4, 1, 1, 2, 0, 4, 1));
    lemma_tm(p, -162, 4, 0, 0, 1, 0, 3, 1, 1, 0, 1, 1, 0, 2, 0, 0);
    assert(t4 * s6 == (-162) * mn(p, 4, 1, 1, 1, 2, 3, 1));
    lemma_tm(p, -162, 4, 0, 0, 1, 0, 3, 1, 3, 0, 1, 1, 0, 0, 2, 1);
    assert(t4 * s7 == (-486) * mn(p, 4, 1, 1, 1, 0, 5, 2));
    lemma_tm(p, -162, 4, 0, 0, 1, 0, 3, 1, -3, 0, 0, 2, 1, 1, 0, 0);
    assert(t4 * s8 == (486) * mn(p, 4, 0, 2, 2, 1, 3, 1));
    lemma_tm(p, -162, 4, 0, 0, 1, 0, 3, 1, 3, 0, 0, 2, 0, 1, 1, 1);
    assert(t4 * s9 == (-486) * mn(p, 4, 0, 2, 1, 1, 4, 2));
    assert(t4 * q == (-486) * mn(p, 6, 0, 0, 2, 1, 3, 1) + (-486) * mn(p, 5, 1, 0, 3, 0, 3, 1) + (486) * mn(p, 5, 1, 0, 1, 0, 5, 1) + (972) * mn(p, 5, 0, 1, 1, 1, 4, 1) + (-162) * mn(p, 4, 2, 0, 1, 1, 4, 1) + (972) * mn(p, 4, 1, 1, 2, 0, 4, 1) + (-162) * mn(p, 4, 1, 1, 1, 2, 3, 1) + (-486) * mn(p, 4, 1, 1, 1, 0, 5, 2) + (486) * mn(p, 4, 0, 2, 2, 1, 3, 1) + (-486) * mn(p, 4, 0, 2, 1, 1, 4, 2));
    lemma_tm(p, 81, 4, 0, 0, 0, 0, 4, 0, 3, 2, 0, 0, 1, 1, 0, 0);
    assert(t5 * s0 == (243) * mn(p, 6, 0, 0, 1, 1, 4, 0));
    lemma_tm(p, 81, 4, 0, 0, 0, 0, 4, 0, 3, 1, 1, 0, 2, 0, 0, 0);
    assert(t5 * s1 == (243) * mn(p, 5, 1, 0, 2, 0, 4, 0));
    lemma_tm(p, 81, 4, 0, 0, 0, 0, 4, 0, -3, 1, 1, 0, 0, 0, 2, 0);
    assert(t5 * s2 == (-243) * mn(p, 5, 1, 0, 0, 0, 6, 0));
    lemma_tm(p, 81, 4, 0, 0, 0, 0, 4, 0, -6, 1, 0, 1, 0, 1, 1, 0);
    assert(t5 * s3 == (-486) * mn(p, 5, 0, 1, 0, 1, 5, 0));
    lemma_tm(p, 81, 4, 0, 0, 0, 0, 4, 0, 1, 0, 2, 0, 0, 1, 1, 0);
    assert(t5 * s4 == (81) * mn(p, 4, 2, 0, 0, 1, 5, 0));
    lemma_tm(p, 81, 4, 0, 0, 0, 0, 4, 0, -6, 0, 1, 1, 1, 0, 1, 0);
    assert(t5 * s5 == (-486) * mn(p, 4, 1, 1, 1, 0, 5, 0));
    lemma_tm(p, 81, 4, 0, 0, 0, 0, 4, 0, 1, 0, 1, 1, 0, 2, 0, 0);
    assert(t5 * s6 == (81) * mn(p, 4, 1, 1, 0, 2, 4, 0));
    lemma_tm(p, 81, 4, 0, 0, 0, 0, 4, 0, 3, 0, 1, 1, 0, 0, 2, 1);
    assert(t5 * s7 == (243) * mn(p, 4, 1, 1, 0, 0, 6, 1));
    lemma_tm(p, 81, 4, 0, 0, 0, 0, 4, 0, -3, 0, 0, 2, 1, 1, 0, 0);
    assert(t5 * s8 == (-243) * mn(p, 4, 0, 2, 1, 1, 4, 0));
    lemma_tm(p, 81, 4, 0, 0, 0, 0, 4, 0, 3, 0, 0, 2, 0, 1, 1, 1);
    assert(t5 * s9 == (243) * mn(p, 4, 0, 2, 0, 1, 5, 1));
    assert(t5 * q == (243) * mn(p, 6, 0, 0, 1, 1, 4, 0) + (243) * mn(p, 5, 1, 0, 2, 0, 4, 0) + (-243) * mn(p, 5, 1, 0, 0, 0, 6, 0) + (-486) * mn(p, 5, 0, 1, 0, 1, 5, 0) + (81) * mn(p, 4, 2, 0, 0, 1, 5, 0) + (-486) * mn(p, 4, 1, 1, 1, 0, 5, 0) + (81) * mn(p, 4, 1, 1, 0, 2, 4, 0) + (243) * mn(p, 4, 1, 1, 0, 0, 6, 1) + (-243) * mn(p, 4, 0, 2, 1, 1, 4, 0) + (243) * mn(p, 4, 0, 2, 0, 1, 5, 1));
    lemma_tm(p, -162, 3, 0, 1, 4, 0, 0, 1, 3, 2, 0, 0, 1, 1, 0, 0);
    assert(t6 * s0 == (-486) * mn(p, 5, 0, 1, 5, 1, 0, 1));
    lemma_tm(p, -162, 3, 0, 1, 4, 0, 0, 1, 3, 1, 1, 0, 2, 0, 0, 0);
    assert(t6 * s1 == (-486) * mn(p, 4, 1, 1, 6, 0, 0, 1));
    lemma_tm(p, -162, 3, 0, 1, 4, 0, 0, 1, -3, 1, 1, 0, 0, 0, 2, 0);
    assert(t6 * s2 == (486) * mn(p, 4, 1, 1, 4, 0, 2, 1));
    lemma_tm(p, -162, 3, 0, 1, 4, 0, 0, 1, -6, 1, 0, 1, 0, 1, 1, 0);
    assert(t6 * s3 == (972) * mn(p, 4, 0, 2, 4, 1, 1, 1));
    lemma_tm(p, -162, 3, 0, 1, 4, 0, 0, 1, 1, 0, 2, 0, 0, 1, 1, 0);
    assert(t6 * s4 == (-162) * mn(p, 3, 2, 1, 4, 1, 1, 1));
    lemma_tm(p, -162, 3, 0, 1, 4, 0, 0, 1, -6, 0, 1, 1, 1, 0, 1, 0);
    assert(t6 * s5 == (972) * mn(p, 3, 1, 2, 5, 0, 1, 1));
    lemma_tm(p, -162, 3, 0, 1, 4, 0, 0, 1, 1, 0, 1, 1, 0, 2, 0, 0);
    assert(t6 * s6 == (-162) * mn(p, 3, 1, 2, 4, 2, 0, 1));
    lemma_tm(p, -162, 3, 0, 1, 4, 0, 0, 1, 3, 0, 1, 1, 0, 0, 2, 1);
    assert(t6 * s7 == (-486) * mn(p, 3, 1, 2, 4, 0, 2, 2));
    lemma_tm(p, -162, 3, 0, 1, 4, 0, 0, 1, -3, 0, 0, 2, 1, 1, 0, 0);
    assert(t6 * s8 == (486) * mn(p, 3, 0, 3, 5, 1, 0, 1));
    lemma_tm(p, -162, 3, 0, 1, 4, 0, 0, 1, 3, 0, 0, 2, 0, 1, 1, 1);
    assert(t6 * s9 == (-486) * mn(p, 3, 0, 3, 4, 1, 1, 2));
    assert(t6 * q == (-486) * mn(p, 5, 0, 1, 5, 1, 0, 1) + (-486) * mn(p, 4, 1, 1, 6, 0, 0, 1) + (486) * mn(p, 4, 1, 1, 4, 0, 2, 1) + (972) * mn(p, 4, 0, 2, 4, 1, 1, 1) + (-162) * mn(p, 3, 2, 1, 4, 1, 1, 1) + (972) * mn(p, 3, 1, 2, 5, 0, 1, 1) + (-162) * mn(p, 3, 1, 2, 4, 2, 0, 1) + (-486) * mn(p, 3, 1, 2, 4, 0, 2, 2) + (486) * mn(p, 3, 0, 3, 5, 1, 0, 1) + (-486) * mn(p, 3, 0, 3, 4, 1, 1, 2));
    lemma_tm(p, 162, 3, 0, 1, 3, 0, 1, 2, 3, 2, 0, 0, 1, 1, 0, 0);
    assert(t7 * s0 == (486) * mn(p, 5, 0, 1, 4, 1, 1, 2));
    lemma_tm(p, 162, 3, 0, 1, 3, 0, 1, 2, 3, 1, 1, 0, 2, 0, 0, 0);
    assert(t7 * s1 == (486) * mn(p, 4, 1, 1, 5, 0, 1, 2));
    lemma_tm(p, 162, 3, 0, 1, 3, 0, 1, 2, -3, 1, 1, 0, 0, 0, 2, 0);
    assert(t7 * s2 == (-486) * mn(p, 4, 1, 1, 3, 0, 3, 2));
    lemma_tm(p, 162, 3, 0, 1, 3, 0, 1, 2, -6, 1, 0, 1, 0, 1, 1, 0);
    assert(t7 * s3 == (-972) * mn(p, 4, 0, 2, 3, 1, 2, 2));
    lemma_tm(p, 162, 3, 0, 1, 3, 0, 1, 2, 1, 0, 2, 0, 0, 1, 1, 0);
    assert(t7 * s4 == (162) * mn(p, 3, 2, 1, 3, 1, 2, 2));
    lemma_tm(p, 162, 3, 0, 1, 3, 0, 1, 2, -6, 0, 1, 1, 1, 0, 1, 0);
    assert(t7 * s5 == (-972) * mn(p, 3, 1, 2, 4, 0, 2, 2));
    lemma_tm(p, 162, 3, 0, 1, 3, 0, 1, 2, 1, 0, 1, 1, 0, 2, 0, 0);
    assert(t7 * s6 == (162) * mn(p, 3, 1, 2, 3, 2, 1, 2));
    lemma_tm(p, 162, 3, 0, 1, 3, 0, 1, 2, 3, 0, 1, 1, 0, 0, 2, 1);
    assert(t7 * s7 == (486) * mn(p, 3, 1, 2, 3, 0, 3, 3));
    lemma_tm(p, 162, 3, 0, 1, 3, 0, 1, 2, -3, 0, 0, 2, 1, 1, 0, 0);
    assert(t7 * s8 == (-486) * mn(p, 3, 0, 3, 4, 1, 1, 2));
    lemma_tm(p, 162, 3, 0, 1, 3, 0, 1, 2, 3, 0, 0, 2, 0, 1, 1, 1);
    assert(t7 * s9 == (486) * mn(p, 3, 0, 3, 3, 1, 2, 3));
    assert(t7 * q == (486) * mn(p, 5, 0, 1, 4, 1, 1, 2) + (486) * mn(p, 4, 1, 1, 5, 0, 1, 2) + (-486) * mn(p, 4, 1, 1, 3, 0, 3, 2) + (-972) * mn(p, 4, 0, 2, 3, 1, 2, 2) + (162) * mn(p, 3, 2, 1, 3, 1, 2, 2) + (-972) * mn(p, 3, 1, 2, 4, 0, 2, 2) + (162) * mn(p, 3, 1, 2, 3, 2, 1, 2) + (486) * mn(p, 3, 1, 2, 3, 0, 3, 3) + (-486) * mn(p, 3, 0, 3, 4, 1, 1, 2) + (486) * mn(p, 3, 0, 3, 3, 1, 2, 3));
    lemma_tm(p, 648, 3, 0, 1, 3, 0, 1, 0, 3, 2, 0, 0, 1, 1, 0, 0);
    assert(t8 * s0 == (1944) * mn(p, 5, 0, 1, 4, 1, 1, 0));
    lemma_tm(p, 648, 3, 0, 1, 3, 0, 1, 0, 3, 1, 1, 0, 2, 0, 0, 0);
    assert(t8 * s1 == (1944) * mn(p, 4, 1, 1, 5, 0, 1, 0));
    lemma_tm(p, 648, 3, 0, 1, 3, 0, 1, 0, -3, 1, 1, 0, 0, 0, 2, 0);
    assert(t8 * s2 == (-1944) * mn(p, 4, 1, 1, 3, 0, 3, 0));
    lemma_tm(p, 648, 3, 0, 1, 3, 0, 1, 0, -6, 1, 0, 1, 0, 1, 1, 0);
    assert(t8 * s3 == (-3888) * mn(p, 4, 0, 2, 3, 1, 2, 0));
    lemma_tm(p, 648, 3, 0, 1, 3, 0, 1, 0, 1, 0, 2, 0, 0, 1, 1, 0);
    assert(t8 * s4 == (648) * mn(p, 3, 2, 1, 3, 1, 2, 0));
    lemma_tm(p, 648, 3, 0, 1, 3, 0, 1, 0, -6, 0, 1, 1, 1, 0, 1, 0);
    assert(t8 * s5 == (-3888) * mn(p, 3, 1, 2, 4, 0, 2, 0));
    lemma_tm(p, 648, 3, 0, 1, 3, 0, 1, 0, 1, 0, 1, 1, 0, 2, 0, 0);
    assert(t8 * s6 == (648) * mn(p, 3, 1, 2, 3, 2, 1, 0));
    lemma_tm(p, 648, 3, 0, 1, 3, 0, 1, 0, 3, 0, 1, 1, 0, 0, 2, 1);
    assert(t8 * s7 == (1944) * mn(p, 3, 1, 2, 3, 0, 3, 1));
    lemma_tm(p, 648, 3, 0, 1, 3, 0, 1, 0, -3, 0, 0, 2, 1, 1, 0, 0);
    assert(t8 * s8 == (-1944) * mn(p, 3, 0, 3, 4, 1, 1, 0));
    lemma_tm(p, 648, 3, 0, 1, 3, 0, 1, 0, 3, 0, 0, 2, 0, 1, 1, 1);
    assert(t8 * s9 == (1944) * mn(p, 3, 0, 3, 3, 1, 2, 1));
    assert(t8 * q == (1944) * mn(p, 5, 0, 1, 4, 1, 1, 0) + (1944) * mn(p, 4, 1, 1, 5, 0, 1, 0) + (-1944) * mn(p, 4, 1, 1, 3, 0, 3, 0) + (-3888) * mn(p, 4, 0, 2, 3, 1, 2, 0) + (648) * mn(p, 3, 2, 1, 3, 1, 2, 0) + (-3888) * mn(p, 3, 1, 2, 4, 0, 2, 0) + (648) * mn(p, 3, 1, 2, 3, 2, 1, 0) + (1944) * mn(p, 3, 1, 2, 3, 0, 3, 1) + (-1944) * mn(p, 3, 0, 3, 4, 1, 1, 0) + (1944) * mn(p, 3, 0, 3, 3, 1, 2, 1));
    lemma_tm(p, -972, 3, 0, 1, 2, 0, 2, 1, 3, 2, 0, 0, 1, 1, 0, 0);
    assert(t9 * s0 == (-2916) * mn(p, 5, 0, 1, 3, 1, 2, 1));
    lemma_tm(p, -972, 3, 0, 1, 2, 0, 2, 1, 3, 1, 1, 0, 2, 0, 0, 0);
    assert(t9 * s1 == (-2916) * mn(p, 4, 1, 1, 4, 0, 2, 1));
    lemma_tm(p, -972, 3, 0, 1, 2, 0, 2, 1, -3, 1, 1, 0, 0, 0, 2, 0);
    assert(t9 * s2 == (2916) * mn(p, 4, 1, 1, 2, 0, 4, 1));
    lemma_tm(p, -972, 3, 0, 1, 2, 0, 2, 1, -6, 1, 0, 1, 0, 1, 1, 0);
    assert(t9 * s3 == (5832) * mn(p, 4, 0, 2, 2, 1, 3, 1));
    lemma_tm(p, -972, 3, 0, 1, 2, 0, 2, 1, 1, 0, 2, 0, 0, 1, 1, 0);
    assert(t9 * s4 == (-972) * mn(p, 3, 2, 1, 2, 1, 3, 1));
    lemma_tm(p, -972, 3, 0, 1, 2, 0, 2, 1, -6, 0, 1, 1, 1, 0, 1, 0);
    assert(t9 * s5 == (5832) * mn(p, 3, 1, 2, 3, 0, 3, 1));
    lemma_tm(p, -972, 3, 0, 1, 2, 0, 2, 1, 1, 0, 1, 1, 0, 2, 0, 0);
    assert(t9 * s6 == (-972) * mn(p, 3, 1, 2, 2, 2, 2, 1));
    lemma_tm(p, -972, 3, 0, 1, 2, 0, 2, 1, 3, 0, 1, 1, 0, 0, 2, 1);
    assert(t9 * s7 == (-2916) * mn(p, 3, 1, 2, 2, 0, 4, 2));
    lemma_tm(p, -972, 3, 0, 1, 2, 0, 2, 1, -3, 0, 0, 2, 1, 1, 0, 0);
    assert(t9 * s8 == (2916) * mn(p, 3, 0, 3, 3, 1, 2, 1));
    lemma_tm(p, -972, 3, 0, 1, 2, 0, 2, 1, 3, 0, 0, 2, 0, 1, 1, 1);
    assert(t9 * s9 == (-2916) * mn(p, 3, 0, 3, 2, 1, 3, 2));
    assert(t9 * q == (-2916) * mn(p, 5, 0, 1, 3, 1, 2, 1) + (-2916) * mn(p, 4, 1, 1, 4, 0, 2, 1) + (2916) * mn(p, 4, 1, 1, 2, 0, 4, 1) + (5832) * mn(p, 4, 0, 2, 2, 1, 3, 1) + (-972) * mn(p, 3, 2, 1, 2, 1, 3, 1) + (5832) * mn(p, 3, 1, 2, 3, 0, 3, 1) + (-972) * mn(p, 3, 1, 2, 2, 2, 2, 1) + (-2916) * mn(p, 3, 1, 2, 2, 0, 4, 2) + (2916) * mn(p, 3, 0, 3, 3, 1, 2, 1) + (-2916) * mn(p, 3, 0, 3, 2, 1, 3, 2));
    lemma_tm(p, 162, 3, 0, 1, 1, 0, 3, 2, 3, 2, 0, 0, 1, 1, 0, 0);
    assert(t10 * s0 == (486) * mn(p, 5, 0, 1, 2, 1, 3, 2));
    lemma_tm(p, 162, 3, 0, 1, 1, 0, 3, 2, 3, 1, 1, 0, 2, 0, 0, 0);
    assert(t10 * s1 == (486) * mn(p, 4, 1, 1, 3, 0, 3, 2));
    lemma_tm(p, 162, 3, 0, 1, 1, 0, 3, 2, -3, 1, 1, 0, 0, 0, 2, 0);
    assert(t10 * s2 == (-486) * mn(p, 4, 1, 1, 1, 0, 5, 2));
    lemma_tm(p, 162, 3, 0, 1, 1, 0, 3, 2, -6, 1, 0, 1, 0, 1, 1, 0);
    assert(t10 * s3 == (-972) * mn(p, 4, 0, 2, 1, 1, 4, 2));
    lemma_tm(p, 162, 3, 0, 1, 1, 0, 3, 2, 1, 0, 2, 0, 0, 1, 1, 0);
    assert(t10 * s4 == (162) * mn(p, 3, 2, 1, 1, 1, 4, 2));
    lemma_tm(p, 162, 3, 0, 1, 1, 0, 3, 2, -6, 0, 1, 1, 1, 0, 1, 0);
    assert(t10 * s5 == (-972) * mn(p, 3, 1, 2, 2, 0, 4, 2));
    lemma_tm(p, 162, 3, 0, 1, 1, 0, 3, 2, 1, 0, 1, 1, 0, 2, 0, 0);
    assert(t10 * s6 == (162) * mn(p, 3, 1, 2, 1, 2, 3, 2));
    lemma_tm(p, 162, 3, 0, 1, 1, 0, 3, 2, 3, 0, 1, 1, 0, 0, 2, 1);
    assert(t10 * s7 == (486) * mn(p, 3, 1, 2, 1, 0, 5, 3));
    lemma_tm(p, 162, 3, 0, 1, 1, 0, 3, 2, -3, 0, 0, 2, 1, 1, 0, 0);
    assert(t10 * s8 == (-486) * mn(p, 3, 0, 3, 2, 1, 3, 2));
    lemma_tm(p, 162, 3, 0, 1, 1, 0, 3, 2, 3, 0, 0, 2, 0, 1, 1, 1);
    assert(t10 * s9 == (486) * mn(p, 3, 0, 3, 1, 1, 4, 3));
    assert(t10 * q == (486) * mn(p, 5, 0, 1, 2, 1, 3, 2) + (486) * mn(p, 4, 1, 1, 3, 0, 3, 2) + (-486) * mn(p, 4, 1, 1, 1, 0, 5, 2) + (-972) * mn(p, 4, 0, 2, 1, 1, 4, 2) + (162) * mn(p, 3, 2, 1, 1, 1, 4, 2) + (-972) * mn(p, 3, 1, 2, 2, 0, 4, 2) + (162) * mn(p, 3, 1, 2, 1, 2, 3, 2) + (486) * mn(p, 3, 1, 2, 1, 0, 5, 3) + (-486) * mn(p, 3, 0, 3, 2, 1, 3, 2) + (486) * mn(p, 3, 0, 3, 1, 1, 4, 3));
    lemma_tm(p, 648, 3, 0, 1, 1, 0, 3, 0, 3, 2, 0, 0, 1, 1, 0, 0);
    assert(t11 * s0 == (1944) * mn(p, 5, 0, 1, 2, 1, 3, 0));
    lemma_tm(p, 648, 3, 0, 1, 1, 0, 3, 0, 3, 1, 1, 0, 2, 0, 0, 0);
    assert(t11 * s1 == (1944) * mn(p, 4, 1, 1, 3, 0, 3, 0));
    lemma_tm(p, 648, 3, 0, 1, 1, 0, 3, 0, -3, 1, 1, 0, 0, 0, 2, 0);
    assert(t11 * s2 == (-1944) * mn(p, 4, 1, 1, 1, 0, 5, 0));
    lemma_tm(p, 648, 3, 0, 1, 1, 0, 3, 0, -6, 1, 0, 1, 0, 1, 1, 0);
    assert(t11 * s3 == (-3888) * mn(p, 4, 0, 2, 1, 1, 4, 0));
    lemma_tm(p, 648, 3, 0, 1, 1, 0, 3, 0, 1, 0, 2, 0, 0, 1, 1, 0);
    assert(t11 * s4 == (648) * mn(p, 3, 2, 1, 1, 1, 4, 0));
    lemma_tm(p, 648, 3, 0, 1, 1, 0, 3, 0, -6, 0, 1, 1, 1, 0, 1, 0);
    assert(t11 * s5 == (-3888) * mn(p, 3, 1, 2, 2, 0, 4, 0));
    lemma_tm(p, 648, 3, 0, 1, 1, 0, 3, 0, 1, 0, 1, 1, 0, 2, 0, 0);
    assert(t11 * s6 == (648) * mn(p, 3, 1, 2, 1, 2, 3, 0));
    lemma_tm(p, 648, 3, 0, 1, 1, 0, 3, 0, 3, 0, 1, 1, 0, 0, 2, 1);
    assert(t11 * s7 == (1944) * mn(p, 3, 1, 2, 1, 0, 5, 1));
    lemma_tm(p, 648, 3, 0, 1, 1, 0, 3, 0, -3, 0, 0, 2, 1, 1, 0, 0);
    assert(t11 * s8 == (-1944) * mn(p, 3, 0, 3, 2, 1, 3, 0));
    lemma_tm(p, 648, 3, 0, 1, 1, 0, 3, 0, 3, 0, 0, 2, 0, 1, 1, 1);
    assert(t11 * s9 == (1944) * mn(p, 3, 0, 3, 1, 1, 4, 1));
    assert(t11 * q == (1944) * mn(p, 5, 0, 1, 2, 1, 3, 0) + (1944) * mn(p, 4, 1, 1, 3, 0, 3, 0) + (-1944) * mn(p, 4, 1, 1, 1, 0, 5, 0) + (-3888) * mn(p, 4, 0, 2, 1, 1, 4, 0) + (648) * mn(p, 3, 2, 1, 1, 1, 4, 0) + (-3888) * mn(p, 3, 1, 2, 2, 0, 4, 0) + (648) * mn(p, 3, 1, 2, 1, 2, 3, 0) + (1944) * mn(p, 3, 1, 2, 1, 0, 5, 1) + (-1944) * mn(p, 3, 0, 3, 2, 1, 3, 0) + (1944) * mn(p, 3, 0, 3, 1, 1, 4, 1));
    lemma_tm(p, -162, 3, 0, 1, 0, 0, 4, 1, 3, 2, 0, 0, 1, 1, 0, 0);
    assert(t12 * s0 == (-486) * mn(p, 5, 0, 1, 1, 1, 4, 1));
    lemma_tm(p, -162, 3, 0, 1, 0, 0, 4, 1, 3, 1, 1, 0, 2, 0, 0, 0);
    assert(t12 * s1 == (-486) * mn(p, 4, 1, 1, 2, 0, 4, 1));
    lemma_tm(p, -162, 3, 0, 1, 0, 0, 4, 1, -3, 1, 1, 0, 0, 0, 2, 0);
    assert(t12 * s2 == (486) * mn(p, 4, 1, 1, 0, 0, 6, 1));
    lemma_tm(p, -162, 3, 0, 1, 0, 0, 4, 1, -6, 1, 0, 1, 0, 1, 1, 0);
    assert(t12 * s3 == (972) * mn(p, 4, 0, 2, 0, 1, 5, 1));
    lemma_tm(p, -162, 3, 0, 1, 0, 0, 4, 1, 1, 0, 2, 0, 0, 1, 1, 0);
    assert(t12 * s4 == (-162) * mn(p, 3, 2, 1, 0, 1, 5, 1));
    lemma_tm(p, -162, 3, 0, 1, 0, 0, 4, 1, -6, 0, 1, 1, 1, 0, 1, 0);
    assert(t12 * s5 == (972) * mn(p, 3, 1, 2, 1, 0, 5, 1));
    lemma_tm(p, -162, 3, 0, 1, 0, 0, 4, 1, 1, 0, 1, 1, 0, 2, 0, 0);
    assert(t12 * s6 == (-162) * mn(p, 3, 1, 2, 0, 2, 4, 1));
    lemma_tm(p, -162, 3, 0, 1, 0, 0, 4, 1, 3, 0, 1, 1, 0, 0, 2, 1);
    assert(t12 * s7 == (-486) * mn(p, 3, 1, 2, 0, 0, 6, 2));
    lemma_tm(p, -162, 3, 0, 1, 0, 0, 4, 1, -3, 0, 0, 2, 1, 1, 0, 0);
    assert(t12 * s8 == (486) * mn(p, 3, 0, 3, 1, 1, 4, 1));
    lemma_tm(p, -162, 3, 0, 1, 0, 0, 4, 1, 3, 0, 0, 2, 0, 1, 1, 1);
    assert(t12 * s9 == (-486) * mn(p, 3, 0, 3, 0, 1, 5, 2));
    assert(t12 * q == (-486) * mn(p, 5, 0, 1, 1, 1, 4, 1) + (-486) * mn(p, 4, 1, 1, 2, 0, 4, 1) + (486) * mn(p, 4, 1, 1, 0, 0, 6, 1) + (972) * mn(p, 4, 0, 2, 0, 1, 5, 1) + (-162) * mn(p, 3, 2, 1, 0, 1, 5, 1) + (972) * mn(p, 3, 1, 2, 1, 0, 5, 1) + (-162) * mn(p, 3, 1, 2, 0, 2, 4, 1) + (-486) * mn(p, 3, 1, 2, 0, 0, 6, 2) + (486) * mn(p, 3, 0, 3, 1, 1, 4, 1) + (-486) * mn(p, 3, 0, 3, 0, 1, 5, 2));
    lemma_tm(p, -18, 2, 2, 0, 2, 2, 0, 0, 3, 2, 0, 0, 1, 1, 0, 0);
    assert(t13 * s0 == (-54) * mn(p, 4, 2, 0, 3, 3, 0, 0));
    lemma_tm(p, -18, 2, 2, 0, 2, 2, 0, 0, 3, 1, 1, 0, 2, 0, 0, 0);
    assert(t13 * s1 == (-54) * mn(p, 3, 3, 0, 4, 2, 0, 0));
    lemma_tm(p, -18, 2, 2, 0, 2, 2, 0, 0, -3, 1, 1, 0, 0, 0, 2, 0);
    assert(t13 * s2 == (54) * mn(p, 3, 3, 0, 2, 2, 2, 0));
    lemma_tm(p, -18, 2, 2, 0, 2, 2, 0, 0, -6, 1, 0, 1, 0, 1, 1, 0);
    assert(t13 * s3 == (108) * mn(p, 3, 2, 1, 2, 3, 1, 0));
    lemma_tm(p, -18, 2, 2, 0, 2, 2, 0, 0, 1, 0, 2, 0, 0, 1, 1, 0);
    assert(t13 * s4 == (-18) * mn(p, 2, 4, 0, 2, 3, 1, 0));
    lemma_tm(p, -18, 2, 2, 0, 2, 2, 0, 0, -6, 0, 1, 1, 1, 0, 1, 0);
    assert(t13 * s5 == (108) * mn(p, 2, 3, 1, 3, 2, 1, 0));
    lemma_tm(p, -18, 2, 2, 0, 2, 2, 0, 0, 1, 0, 1, 1, 0, 2, 0, 0);
    assert(t13 * s6 == (-18) * mn(p, 2, 3, 1, 2, 4, 0, 0));
    lemma_tm(p, -18, 2, 2, 0, 2, 2, 0, 0, 3, 0, 1, 1, 0, 0, 2, 1);
    assert(t13 * s7 == (-54) * mn(p, 2, 3, 1, 2, 2, 2, 1));
    lemma_tm(p, -18, 2, 2, 0, 2, 2, 0, 0, -3, 0, 0, 2, 1, 1, 0, 0);
    assert(t13 * s8 == (54) * mn(p, 2, 2, 2, 3, 3, 0, 0));
    lemma_tm(p, -18, 2, 2, 0, 2, 2, 0, 0, 3, 0, 0, 2, 0, 1, 1, 1);
    assert(t13 * s9 == (-54) * mn(p, 2, 2, 2, 2, 3, 1, 1));
    assert(t13 * q == (-54) * mn(p, 4, 2, 0, 3, 3, 0, 0) + (-54) * mn(p, 3, 3, 0, 4, 2, 0, 0) + (54) * mn(p, 3, 3, 0, 2, 2, 2, 0) + (108) * mn(p, 3, 2, 1, 2, 3, 1, 0) + (-18) * mn(p, 2, 4, 0, 2, 3, 1, 0) + (108) * mn(p, 2, 3, 1, 3, 2, 1, 0) + (-18) * mn(p, 2, 3, 1, 2, 4, 0, 0) + (-54) * mn(p, 2, 3, 1, 2, 2, 2, 1) + (54) * mn(p, 2, 2, 2, 3, 3, 0, 0) + (-54) * mn(p, 2, 2, 2, 2, 3, 1, 1));
    lemma_tm(p, 18, 2, 2, 0, 1, 2, 1, 1, 3, 2, 0, 0, 1, 1, 0, 0);
    assert(t14 * s0 == (54) * mn(p, 4, 2, 0, 2, 3, 1, 1));
    lemma_tm(p, 18, 2, 2, 0, 1, 2, 1, 1, 3, 1, 1, 0, 2, 0, 0, 0);
    assert(t14 * s1 == (54) * mn(p, 3, 3, 0, 3, 2, 1, 1));
    lemma_tm(p, 18, 2, 2, 0, 1, 2, 1, 1, -3, 1, 1, 0, 0, 0, 2, 0);
    assert(t14 * s2 == (-54) * mn(p, 3, 3, 0, 1, 2, 3, 1));
    lemma_tm(p, 18, 2, 2, 0, 1, 2, 1, 1, -6, 1, 0, 1, 0, 1, 1, 0);
    assert(t14 * s3 == (-108) * mn(p, 3, 2, 1, 1, 3, 2, 1));
    lemma_tm(p, 18, 2, 2, 0, 1, 2, 1, 1, 1, 0, 2, 0, 0, 1, 1, 0);
    assert(t14 * s4 == (18) * mn(p, 2, 4, 0, 1, 3, 2, 1));
    lemma_tm(p, 18, 2, 2, 0, 1, 2, 1, 1, -6, 0, 1, 1, 1, 0, 1, 0);
    assert(t14 * s5 == (-108) * mn(p, 2, 3, 1, 2, 2, 2, 1));
    lemma_tm(p, 18, 2, 2, 0, 1, 2, 1, 1, 1, 0, 1, 1, 0, 2, 0, 0);
    assert(t14 * s6 == (18) * mn(p, 2, 3, 1, 1, 4, 1, 1));
    lemma_tm(p, 18, 2, 2, 0, 1, 2, 1, 1, 3, 0, 1, 1, 0, 0, 2, 1);
    assert(t14 * s7 == (54) * mn(p, 2, 3, 1, 1, 2, 3, 2));
    lemma_tm(p, 18, 2, 2, 0, 1, 2, 1, 1, -3, 0, 0, 2, 1, 1, 0, 0);
    assert(t14 * s8 == (-54) * mn(p, 2, 2, 2, 2, 3, 1, 1));
    lemma_tm(p, 18, 2, 2, 0, 1, 2, 1, 1, 3, 0, 0, 2, 0, 1, 1, 1);
    assert(t14 * s9 == (54) * mn(p, 2, 2, 2, 1, 3, 2, 2));
    assert(t14 * q == (54) * mn(p, 4, 2, 0, 2, 3, 1, 1) + (54) * mn(p, 3, 3, 0, 3, 2, 1, 1) + (-54) * mn(p, 3, 3, 0, 1, 2, 3, 1) + (-108) * mn(p, 3, 2, 1, 1, 3, 2, 1) + (18) * mn(p, 2, 4, 0, 1, 3, 2, 1) + (-108) * mn(p, 2, 3, 1, 2, 2, 2, 1) + (18) * mn(p, 2, 3, 1, 1, 4, 1, 1) + (54) * mn(p, 2, 3, 1, 1, 2, 3, 2) + (-54) * mn(p, 2, 2, 2, 2, 3, 1, 1) + (54) * mn(p, 2, 2, 2, 1, 3, 2, 2));
    lemma_tm(p, -18, 2, 2, 0, 0, 2, 2, 0, 3, 2, 0, 0, 1, 1, 0, 0);
    assert(t15 * s0 == (-54) * mn(p, 4, 2, 0, 1, 3, 2, 0));
    lemma_tm(p, -18, 2, 2, 0, 0, 2, 2, 0, 3, 1, 1, 0, 2, 0, 0, 0);
    assert(t15 * s1 == (-54) * mn(p, 3, 3, 0, 2, 2, 2, 0));
    lemma_tm(p, -18, 2, 2, 0, 0, 2, 2, 0, -3, 1, 1, 0, 0, 0, 2, 0);
    assert(t15 * s2 == (54) * mn(p, 3, 3, 0, 0, 2, 4, 0));
    lemma_tm(p, -18, 2, 2, 0, 0, 2, 2, 0, -6, 1, 0, 1, 0, 1, 1, 0);
    assert(t15 * s3 == (108) * mn(p, 3, 2, 1, 0, 3, 3, 0));
    lemma_tm(p, -18, 2, 2, 0, 0, 2, 2, 0, 1, 0, 2, 0, 0, 1, 1, 0);
    assert(t15 * s4 == (-18) * mn(p, 2, 4, 0, 0, 3, 3, 0));
    lemma_tm(p, -18, 2, 2, 0, 0, 2, 2, 0, -6, 0, 1, 1, 1, 0, 1, 0);
    assert(t15 * s5 == (108) * mn(p, 2, 3, 1, 1, 2, 3, 0));
    lemma_tm(p, -18, 2, 2, 0, 0, 2, 2, 0, 1, 0, 1, 1, 0, 2, 0, 0);
    assert(t15 * s6 == (-18) * mn(p, 2, 3, 1, 0, 4, 2, 0));
    lemma_tm(p, -18, 2, 2, 0, 0, 2, 2, 0, 3, 0, 1, 1, 0, 0, 2, 1);
    assert(t15 * s7 == (-54) * mn(p, 2, 3, 1, 0, 2, 4, 1));
    lemma_tm(p, -18, 2, 2, 0, 0, 2, 2, 0, -3, 0, 0, 2, 1, 1, 0, 0);
    assert(t15 * s8 == (54) * mn(p, 2, 2, 2, 1, 3, 2, 0));
    lemma_tm(p, -18, 2, 2, 0, 0, 2, 2, 0, 3, 0, 0, 2, 0, 1, 1, 1);
    assert(t15 * s9 == (-54) * mn(p, 2, 2, 2, 0, 3, 3, 1));
    assert(t15 * q == (-54) * mn(p, 4, 2, 0, 1, 3, 2, 0) + (-54) * mn(p, 3, 3, 0, 2, 2, 2, 0) + (54) * mn(p, 3, 3, 0, 0, 2, 4, 0) + (108) * mn(p, 3, 2, 1, 0, 3, 3, 0) + (-18) * mn(p, 2, 4, 0, 0, 3, 3, 0) + (108) * mn(p, 2, 3, 1, 1, 2, 3, 0) + (-18) * mn(p, 2, 3, 1, 0, 4, 2, 0) + (-54) * mn(p, 2, 3, 1, 0, 2, 4, 1) + (54) * mn(p, 2, 2, 2, 1, 3, 2, 0) + (-54) * mn(p, 2, 2, 2, 0, 3, 3, 1));
    lemma_tm(p, 81, 2, 0, 2, 4, 0, 0, 2, 3, 2, 0, 0, 1, 1, 0, 0);
    assert(t16 * s0 == (243) * mn(p, 4, 0, 2, 5, 1, 0, 2));
    lemma_tm(p, 81, 2, 0, 2, 4, 0, 0, 2, 3, 1, 1, 0, 2, 0, 0, 0);
    assert(t16 * s1 == (243) * mn(p, 3, 1, 2, 6, 0, 0, 2));
    lemma_tm(p, 81, 2, 0, 2, 4, 0, 0, 2, -3, 1, 1, 0, 0, 0, 2, 0);
    assert(t16 * s2 == (-243) * mn(p, 3, 1, 2, 4, 0, 2, 2));
    lemma_tm(p, 81, 2, 0, 2, 4, 0, 0, 2, -6, 1, 0, 1, 0, 1, 1, 0);
    assert(t16 * s3 == (-486) * mn(p, 3, 0, 3, 4, 1, 1, 2));
    lemma_tm(p, 81, 2, 0, 2, 4, 0, 0, 2, 1, 0, 2, 0, 0, 1, 1, 0);
    assert(t16 * s4 == (81) * mn(p, 2, 2, 2, 4, 1, 1, 2));
    lemma_tm(p, 81, 2, 0, 2, 4, 0, 0, 2, -6, 0, 1, 1, 1, 0, 1, 0);
    assert(t16 * s5 == (-486) * mn(p, 2, 1, 3, 5, 0, 1, 2));
    lemma_tm(p, 81, 2, 0, 2, 4, 0, 0, 2, 1, 0, 1, 1, 0, 2, 0, 0);
    assert(t16 * s6 == (81) * mn(p, 2, 1, 3, 4, 2, 0, 2));
    lemma_tm(p, 81, 2, 0, 2, 4, 0, 0, 2, 3, 0, 1, 1, 0, 0, 2, 1);
    assert(t16 * s7 == (243) * mn(p, 2, 1, 3, 4, 0, 2, 3));
    lemma_tm(p, 81, 2, 0, 2, 4, 0, 0, 2, -3, 0, 0, 2, 1, 1, 0, 0);
    assert(t16 * s8 == (-243) * mn(p, 2, 0, 4, 5, 1, 0, 2));
    lemma_tm(p, 81, 2, 0, 2, 4, 0, 0, 2, 3, 0, 0, 2, 0, 1, 1, 1);
    assert(t16 * s9 == (243) * mn(p, 2, 0, 4, 4, 1, 1, 3));
    assert(t16 * q == (243) * mn(p, 4, 0, 2, 5, 1, 0, 2) + (243) * mn(p, 3, 1, 2, 6, 0, 0, 2) + (-243) * mn(p, 3, 1, 2, 4, 0, 2, 2) + (-486) * mn(p, 3, 0, 3, 4, 1, 1, 2) + (81) * mn(p, 2, 2, 2, 4, 1, 1, 2) + (-486) * mn(p, 2, 1, 3, 5, 0, 1, 2) + (81) * mn(p, 2, 1, 3, 4, 2, 0, 2) + (243) * mn(p, 2, 1, 3, 4, 0, 2, 3) + (-243) * mn(p, 2, 0, 4, 5, 1, 0, 2) + (243) * mn(p, 2, 0, 4, 4, 1, 1, 3));
    lemma_tm(p, 162, 2, 0, 2, 4, 0, 0, 0, 3, 2, 0, 0, 1, 1, 0, 0);
    assert(t17 * s0 == (486) * mn(p, 4, 0, 2, 5, 1, 0, 0));
    lemma_tm(p, 162, 2, 0, 2, 4, 0, 0, 0, 3, 1, 1, 0, 2, 0, 0, 0);
    assert(t17 * s1 == (486) * mn(p, 3, 1, 2, 6, 0, 0, 0));
    lemma_tm(p, 162, 2, 0, 2, 4, 0, 0, 0, -3, 1, 1, 0, 0, 0, 2, 0);
    assert(t17 * s2 == (-486) * mn(p, 3, 1, 2, 4, 0, 2, 0));
    lemma_tm(p, 162, 2, 0, 2, 4, 0, 0, 0, -6, 1, 0, 1, 0, 1, 1, 0);
    assert(t17 * s3 == (-972) * mn(p, 3, 0, 3, 4, 1, 1, 0));
    lemma_tm(p, 162, 2, 0, 2, 4, 0, 0, 0, 1, 0, 2, 0, 0, 1, 1, 0);
    assert(t17 * s4 == (162) * mn(p, 2, 2, 2, 4, 1, 1, 0));
    lemma_tm(p, 162, 2, 0, 2, 4, 0, 0, 0, -6, 0, 1, 1, 1, 0, 1, 0);
    assert(t17 * s5 == (-972) * mn(p, 2, 1, 3, 5, 0, 1, 0));
    lemma_tm(p, 162, 2, 0, 2, 4, 0, 0, 0, 1, 0, 1, 1, 0, 2, 0, 0);
    assert(t17 * s6 == (162) * mn(p, 2, 1, 3, 4, 2, 0, 0));
    lemma_tm(p, 162, 2, 0, 2, 4, 0, 0, 0, 3, 0, 1, 1, 0, 0, 2, 1);
    assert(t17 * s7 == (486) * mn(p, 2, 1, 3, 4, 0, 2, 1));
    lemma_tm(p, 162, 2, 0, 2, 4, 0, 0, 0, -3, 0, 0, 2, 1, 1, 0, 0);
    assert(t17 * s8 == (-486) * mn(p, 2, 0, 4, 5, 1, 0, 0));
    lemma_tm(p, 162, 2, 0, 2, 4, 0, 0, 0, 3, 0, 0, 2, 0, 1, 1, 1);
    assert(t17 * s9 == (486) * mn(p, 2, 0, 4, 4, 1, 1, 1));
    assert(t17 * q == (486) * mn(p, 4, 0, 2, 5, 1, 0, 0) + (486) * mn(p, 3, 1, 2, 6, 0, 0, 0) + (-486) * mn(p, 3, 1, 2, 4, 0, 2, 0) + (-972) * mn(p, 3, 0, 3, 4, 1, 1, 0) + (162) * mn(p, 2, 2, 2, 4, 1, 1, 0) + (-972) * mn(p, 2, 1, 3, 5, 0, 1, 0) + (162) * mn(p, 2, 1, 3, 4, 2, 0, 0) + (486) * mn(p, 2, 1, 3, 4, 0, 2, 1) + (-486) * mn(p, 2, 0, 4, 5, 1, 0, 0) + (486) * mn(p, 2, 0, 4, 4, 1, 1, 1));
    lemma_tm(p, -972, 2, 0, 2, 3, 0, 1, 1, 3, 2, 0, 0, 1, 1, 0, 0);
    assert(t18 * s0 == (-2916) * mn(p, 4, 0, 2, 4, 1, 1, 1));
    lemma_tm(p, -972, 2, 0, 2, 3, 0, 1, 1, 3, 1, 1, 0, 2, 0, 0, 0);
    assert(t18 * s1 == (-2916) * mn(p, 3, 1, 2, 5, 0, 1, 1));
    lemma_tm(p, -972, 2, 0, 2, 3, 0, 1, 1, -3, 1, 1, 0, 0, 0, 2, 0);
    assert(t18 * s2 == (2916) * mn(p, 3, 1, 2, 3, 0, 3, 1));
    lemma_tm(p, -972, 2, 0, 2, 3, 0, 1, 1, -6, 1, 0, 1, 0, 1, 1, 0);
    assert(t18 * s3 == (5832) * mn(p, 3, 0, 3, 3, 1, 2, 1));
    lemma_tm(p, -972, 2, 0, 2, 3, 0, 1, 1, 1, 0, 2, 0, 0, 1, 1, 0);
    assert(t18 * s4 == (-972) * mn(p, 2, 2, 2, 3, 1, 2, 1));
    lemma_tm(p, -972, 2, 0, 2, 3, 0, 1, 1, -6, 0, 1, 1, 1, 0, 1, 0);
    assert(t18 * s5 == (5832) * mn(p, 2, 1, 3, 4, 0, 2, 1));
    lemma_tm(p, -972, 2, 0, 2, 3, 0, 1, 1, 1, 0, 1, 1, 0, 2, 0, 0);
    assert(t18 * s6 == (-972) * mn(p, 2, 1, 3, 3, 2, 1, 1));
    lemma_tm(p, -972, 2, 0, 2, 3, 0, 1, 1, 3, 0, 1, 1, 0, 0, 2, 1);
    assert(t18 * s7 == (-2916) * mn(p, 2, 1, 3, 3, 0, 3, 2));
    lemma_tm(p, -972, 2, 0, 2, 3, 0, 1, 1, -3, 0, 0, 2, 1, 1, 0, 0);
    assert(t18 * s8 == (2916) * mn(p, 2, 0, 4, 4, 1, 1, 1));
    lemma_tm(p, -972, 2, 0, 2, 3, 0, 1, 1, 3, 0, 0, 2, 0, 1, 1, 1);
    assert(t18 * s9 == (-2916) * mn(p, 2, 0, 4, 3, 1, 2, 2));
    assert(t18 * q == (-2916) * mn(p, 4, 0, 2, 4, 1, 1, 1) + (-2916) * mn(p, 3, 1, 2, 5, 0, 1, 1) + (2916) * mn(p, 3, 1, 2, 3, 0, 3, 1) + (5832) * mn(p, 3, 0, 3, 3, 1, 2, 1) + (-972) * mn(p, 2, 2, 2, 3, 1, 2, 1) + (5832) * mn(p, 2, 1, 3, 4, 0, 2, 1) + (-972) * mn(p, 2, 1, 3, 3, 2, 1, 1) + (-2916) * mn(p, 2, 1, 3, 3, 0, 3, 2) + (2916) * mn(p, 2, 0, 4, 4, 1, 1, 1) + (-2916) * mn(p, 2, 0, 4, 3, 1, 2, 2));
    lemma_tm(p, 486, 2, 0, 2, 2, 0, 2, 2, 3, 2, 0, 0, 1, 1, 0, 0);
    assert(t19 * s0 == (1458) * mn(p, 4, 0, 2, 3, 1, 2, 2));
    lemma_tm(p, 486, 2, 0, 2, 2, 0, 2, 2, 3, 1, 1, 0, 2, 0, 0, 0);
    assert(t19 * s1 == (1458) * mn(p, 3, 1, 2, 4, 0, 2, 2));
    lemma_tm(p, 486, 2, 0, 2, 2, 0, 2, 2, -3, 1, 1, 0, 0, 0, 2, 0);
    assert(t19 * s2 == (-1458) * mn(p, 3, 1, 2, 2, 0, 4, 2));
    lemma_tm(p, 486, 2, 0, 2, 2, 0, 2, 2, -6, 1, 0, 1, 0, 1, 1, 0);
    assert(t19 * s3 == (-2916) * mn(p, 3, 0, 3, 2, 1, 3, 2));
    lemma_tm(p, 486, 2, 0, 2, 2, 0, 2, 2, 1, 0, 2, 0, 0, 1, 1, 0);
    assert(t19 * s4 == (486) * mn(p, 2, 2, 2, 2, 1, 3, 2));
    lemma_tm(p, 486, 2, 0, 2, 2, 0, 2, 2, -6, 0, 1, 1, 1, 0, 1, 0);
    assert(t19 * s5 == (-2916) * mn(p, 2, 1, 3, 3, 0, 3, 2));
    lemma_tm(p, 486, 2, 0, 2, 2, 0, 2, 2, 1, 0, 1, 1, 0, 2, 0, 0);
    assert(t19 * s6 == (486) * mn(p, 2, 1, 3, 2, 2, 2, 2));
    lemma_tm(p, 486, 2, 0, 2, 2, 0, 2, 2, 3, 0, 1, 1, 0, 0, 2, 1);
    assert(t19 * s7 == (1458) * mn(p, 2, 1, 3, 2, 0, 4, 3));
    lemma_tm(p, 486, 2, 0, 2, 2, 0, 2, 2, -3, 0, 0, 2, 1, 1, 0, 0);
    assert(t19 * s8 == (-1458) * mn(p, 2, 0, 4, 3, 1, 2, 2));
    lemma_tm(p, 486, 2, 0, 2, 2, 0, 2, 2, 3, 0, 0, 2, 0, 1, 1, 1);
    assert(t19 * s9 == (1458) * mn(p, 2, 0, 4, 2, 1, 3, 3));
    assert(t19 * q == (1458) * mn(p, 4, 0, 2, 3, 1, 2, 2) + (1458) * mn(p, 3, 1, 2, 4, 0, 2, 2) + (-1458) * mn(p, 3, 1, 2, 2, 0, 4, 2) + (-2916) * mn(p, 3, 0, 3, 2, 1, 3, 2) + (486) * mn(p, 2, 2, 2, 2, 1, 3, 2) + (-2916) * mn(p, 2, 1, 3, 3, 0, 3, 2) + (486) * mn(p, 2, 1, 3, 2, 2, 2, 2) + (1458) * mn(p, 2, 1, 3, 2, 0, 4, 3) + (-1458) * mn(p, 2, 0, 4, 3, 1, 2, 2) + (1458) * mn(p, 2, 0, 4, 2, 1, 3, 3));
    lemma_tm(p, 972, 2, 0, 2, 2, 0, 2, 0, 3, 2, 0, 0, 1, 1, 0, 0);
    assert(t20 * s0 == (2916) * mn(p, 4, 0, 2, 3, 1, 2, 0));
    lemma_tm(p, 972, 2, 0, 2, 2, 0, 2, 0, 3, 1, 1, 0, 2, 0, 0, 0);
    assert(t20 * s1 == (2916) * mn(p, 3, 1, 2, 4, 0, 2, 0));
    lemma_tm(p, 972, 2, 0, 2, 2, 0, 2, 0, -3, 1, 1, 0, 0, 0, 2, 0);
    assert(t20 * s2 == (-2916) * mn(p, 3, 1, 2, 2, 0, 4, 0));
    lemma_tm(p, 972, 2, 0, 2, 2, 0, 2, 0, -6, 1, 0, 1, 0, 1, 1, 0);
    assert(t20 * s3 == (-5832) * mn(p, 3, 0, 3, 2, 1, 3, 0));
    lemma_tm(p, 972, 2, 0, 2, 2, 0, 2, 0, 1, 0, 2, 0, 0, 1, 1, 0);
    assert(t20 * s4 == (972) * mn(p, 2, 2, 2, 2, 1, 3, 0));
    lemma_tm(p, 972, 2, 0, 2, 2, 0, 2, 0, -6, 0, 1, 1, 1, 0, 1, 0);
    assert(t20 * s5 == (-5832) * mn(p, 2, 1, 3, 3, 0, 3, 0));
    lemma_tm(p, 972, 2, 0, 2, 2, 0, 2, 0, 1, 0, 1, 1, 0, 2, 0, 0);
    assert(t20 * s6 == (972) * mn(p, 2, 1, 3, 2, 2, 2, 0));
    lemma_tm(p, 972, 2, 0, 2, 2, 0, 2, 0, 3, 0, 1, 1, 0, 0, 2, 1);
    assert(t20 * s7 == (2916) * mn(p, 2, 1, 3, 2, 0, 4, 1));
    lemma_tm(p, 972, 2, 0, 2, 2, 0, 2, 0, -3, 0, 0, 2, 1, 1, 0, 0);
    assert(t20 * s8 == (-2916) * mn(p, 2, 0, 4, 3, 1, 2, 0));
    lemma_tm(p, 972, 2, 0, 2, 2, 0, 2, 0, 3, 0, 0, 2, 0, 1, 1, 1);
    assert(t20 * s9 == (2916) * mn(p, 2, 0, 4, 2, 1, 3, 1));
    assert(t20 * q == (2916) * mn(p, 4, 0, 2, 3, 1, 2, 0) + (2916) * mn(p, 3, 1, 2, 4, 0, 2, 0) + (-2916) * mn(p, 3, 1, 2, 2, 0, 4, 0) + (-5832) * mn(p, 3, 0, 3, 2, 1, 3, 0) + (972) * mn(p, 2, 2, 2, 2, 1, 3, 0) + (-5832) * mn(p, 2, 1, 3, 3, 0, 3, 0) + (972) * mn(p, 2, 1, 3, 2, 2, 2, 0) + (2916) * mn(p, 2, 1, 3, 2, 0, 4, 1) + (-2916) * mn(p, 2, 0, 4, 3, 1, 2, 0) + (2916) * mn(p, 2, 0, 4, 2, 1, 3, 1));
    lemma_tm(p, -162, 2, 0, 2, 1, 0, 3, 3, 3, 2, 0, 0, 1, 1, 0, 0);
    assert(t21 * s0 == (-486) * mn(p, 4, 0, 2, 2, 1, 3, 3));
    lemma_tm(p, -162, 2, 0, 2, 1, 0, 3, 3, 3, 1, 1, 0, 2, 0, 0, 0);
    assert(t21 * s1 == (-486) * mn(p, 3, 1, 2, 3, 0, 3, 3));
    lemma_tm(p, -162, 2, 0, 2, 1, 0, 3, 3, -3, 1, 1, 0, 0, 0, 2, 0);
    assert(t21 * s2 == (486) * mn(p, 3, 1, 2, 1, 0, 5, 3));
    lemma_tm(p, -162, 2, 0, 2, 1, 0, 3, 3, -6, 1, 0, 1, 0, 1, 1, 0);
    assert(t21 * s3 == (972) * mn(p, 3, 0, 3, 1, 1, 4, 3));
    lemma_tm(p, -162, 2, 0, 2, 1, 0, 3, 3, 1, 0, 2, 0, 0, 1, 1, 0);
    assert(t21 * s4 == (-162) * mn(p, 2, 2, 2, 1, 1, 4, 3));
    lemma_tm(p, -162, 2, 0, 2, 1, 0, 3, 3, -6, 0, 1, 1, 1, 0, 1, 0);
    assert(t21 * s5 == (972) * mn(p, 2, 1, 3, 2, 0, 4, 3));
    lemma_tm(p, -162, 2, 0, 2, 1, 0, 3, 3, 1, 0, 1, 1, 0, 2, 0, 0);
    assert(t21 * s6 == (-162) * mn(p, 2, 1, 3, 1, 2, 3, 3));
    lemma_tm(p, -162, 2, 0, 2, 1, 0, 3, 3, 3, 0, 1, 1, 0, 0, 2, 1);
    assert(t21 * s7 == (-486) * mn(p, 2, 1, 3, 1, 0, 5, 4));
    lemma_tm(p, -162, 2, 0, 2, 1, 0, 3, 3, -3, 0, 0, 2, 1, 1, 0, 0);
    assert(t21 * s8 == (486) * mn(p, 2, 0, 4, 2, 1, 3, 3));
    lemma_tm(p, -162, 2, 0, 2, 1, 0, 3, 3, 3, 0, 0, 2, 0, 1, 1, 1);
    assert(t21 * s9 == (-486) * mn(p, 2, 0, 4, 1, 1, 4, 4));
    assert(t21 * q == (-486) * mn(p, 4, 0, 2, 2, 1, 3, 3) + (-486) * mn(p, 3, 1, 2, 3, 0, 3, 3) + (486) * mn(p, 3, 1, 2, 1, 0, 5, 3) + (972) * mn(p, 3, 0, 3, 1, 1, 4, 3) + (-162) * mn(p, 2, 2, 2, 1, 1, 4, 3) + (972) * mn(p, 2, 1, 3, 2, 0, 4, 3) + (-162) * mn(p, 2, 1, 3, 1, 2, 3, 3) + (-486) * mn(p, 2, 1, 3, 1, 0, 5, 4) + (486) * mn(p, 2, 0, 4, 2, 1, 3, 3) + (-486) * mn(p, 2, 0, 4, 1, 1, 4, 4));
    lemma_tm(p, -324, 2, 0, 2, 1, 0, 3, 1, 3, 2, 0, 0, 1, 1, 0, 0);
    assert(t22 * s0 == (-972) * mn(p, 4, 0, 2, 2, 1, 3, 1));
    lemma_tm(p, -324, 2, 0, 2, 1, 0, 3, 1, 3, 1, 1, 0, 2, 0, 0, 0);
    assert(t22 * s1 == (-972) * mn(p, 3, 1, 2, 3, 0, 3, 1));
    lemma_tm(p, -324, 2, 0, 2, 1, 0, 3, 1, -3, 1, 1, 0, 0, 0, 2, 0);
    assert(t22 * s2 == (972) * mn(p, 3, 1, 2, 1, 0, 5, 1));
    lemma_tm(p, -324, 2, 0, 2, 1, 0, 3, 1, -6, 1, 0, 1, 0, 1, 1, 0);
    assert(t22 * s3 == (1944) * mn(p, 3, 0, 3, 1, 1, 4, 1));
    lemma_tm(p, -324, 2, 0, 2, 1, 0, 3, 1, 1, 0, 2, 0, 0, 1, 1, 0);
    assert(t22 * s4 == (-324) * mn(p, 2, 2, 2, 1, 1, 4, 1));
    lemma_tm(p, -324, 2, 0, 2, 1, 0, 3, 1, -6, 0, 1, 1, 1, 0, 1, 0);
    assert(t22 * s5 == (1944) * mn(p, 2, 1, 3, 2, 0, 4, 1));
    lemma_tm(p, -324, 2, 0, 2, 1, 0, 3, 1, 1, 0, 1, 1, 0, 2, 0, 0);
    assert(t22 * s6 == (-324) * mn(p, 2, 1, 3, 1, 2, 3, 1));
    lemma_tm(p, -324, 2, 0, 2, 1, 0, 3, 1, 3, 0, 1, 1, 0, 0, 2, 1);
    assert(t22 * s7 == (-972) * mn(p, 2, 1, 3, 1, 0, 5, 2));
    lemma_tm(p, -324, 2, 0, 2, 1, 0, 3, 1, -3, 0, 0, 2, 1, 1, 0, 0);
    assert(t22 * s8 == (972) * mn(p, 2, 0, 4, 2, 1, 3, 1));
    lemma_tm(p, -324, 2, 0, 2, 1, 0, 3, 1, 3, 0, 0, 2, 0, 1, 1, 1);
    assert(t22 * s9 == (-972) * mn(p, 2, 0, 4, 1, 1, 4, 2));
    assert(t22 * q == (-972) * mn(p, 4, 0, 2, 2, 1, 3, 1) + (-972) * mn(p, 3, 1, 2, 3, 0, 3, 1) + (972) * mn(p, 3, 1, 2, 1, 0, 5, 1) + (1944) * mn(p, 3, 0, 3, 1, 1, 4, 1) + (-324) * mn(p, 2, 2, 2, 1, 1, 4, 1) + (1944) * mn(p, 2, 1, 3, 2, 0, 4, 1) + (-324) * mn(p, 2, 1, 3, 1, 2, 3, 1) + (-972) * mn(p, 2, 1, 3, 1, 0, 5, 2) + (972) * mn(p, 2, 0, 4, 2, 1, 3, 1) + (-972) * mn(p, 2, 0, 4, 1, 1, 4, 2));
    lemma_tm(p, 243, 2, 0, 2, 0, 0, 4, 2, 3, 2, 0, 0, 1, 1, 0, 0);
    assert(t23 * s0 == (729) * mn(p, 4, 0, 2, 1, 1, 4, 2));
    lemma_tm(p, 243, 2, 0, 2, 0, 0, 4, 2, 3, 1, 1, 0, 2, 0, 0, 0);
    assert(t23 * s1 == (729) * mn(p, 3, 1, 2, 2, 0, 4, 2));
    lemma_tm(p, 243, 2, 0, 2, 0, 0, 4, 2, -3, 1, 1, 0, 0, 0, 2, 0);
    assert(t23 * s2 == (-729) * mn(p, 3, 1, 2, 0, 0, 6, 2));
    lemma_tm(p, 243, 2, 0, 2, 0, 0, 4, 2, -6, 1, 0, 1, 0, 1, 1, 0);
    assert(t23 * s3 == (-1458) * mn(p, 3, 0, 3, 0, 1, 5, 2));
    lemma_tm(p, 243, 2, 0, 2, 0, 0, 4, 2, 1, 0, 2, 0, 0, 1, 1, 0);
    assert(t23 * s4 == (243) * mn(p, 2, 2, 2, 0, 1, 5, 2));
    lemma_tm(p, 243, 2, 0, 2, 0, 0, 4, 2, -6, 0, 1, 1, 1, 0, 1, 0);
    assert(t23 * s5 == (-1458) * mn(p, 2, 1, 3, 1, 0, 5, 2));
    lemma_tm(p, 243, 2, 0, 2, 0, 0, 4, 2, 1, 0, 1, 1, 0, 2, 0, 0);
    assert(t23 * s6 == (243) * mn(p, 2, 1, 3, 0, 2, 4, 2));
    lemma_tm(p, 243, 2, 0, 2, 0, 0, 4, 2, 3, 0, 1, 1, 0, 0, 2, 1);
    assert(t23 * s7 == (729) * mn(p, 2, 1, 3, 0, 0, 6, 3));
    lemma_tm(p, 243, 2, 0, 2, 0, 0, 4, 2, -3, 0, 0, 2, 1, 1, 0, 0);
    assert(t23 * s8 == (-729) * mn(p, 2, 0, 4, 1, 1, 4, 2));
    lemma_tm(p, 243, 2, 0, 2, 0, 0, 4, 2, 3, 0, 0, 2, 0, 1, 1, 1);
    assert(t23 * s9 == (729) * mn(p, 2, 0, 4, 0, 1, 5, 3));
    assert(t23 * q == (729) * mn(p, 4, 0, 2, 1, 1, 4, 2) + (729) * mn(p, 3, 1, 2, 2, 0, 4, 2) + (-729) * mn(p, 3, 1, 2, 0, 0, 6, 2) + (-1458) * mn(p, 3, 0, 3, 0, 1, 5, 2) + (243) * mn(p, 2, 2, 2, 0, 1, 5, 2) + (-1458) * mn(p, 2, 1, 3, 1, 0, 5, 2) + (243) * mn(p, 2, 1, 3, 0, 2, 4, 2) + (729) * mn(p, 2, 1, 3, 0, 0, 6, 3) + (-729) * mn(p, 2, 0, 4, 1, 1, 4, 2) + (729) * mn(p, 2, 0, 4, 0, 1, 5, 3));
    lemma_tm(p, -486, 2, 0, 2, 0, 0, 4, 0, 3, 2, 0, 0, 1, 1, 0, 0);
    assert(t24 * s0 == (-1458) * mn(p, 4, 0, 2, 1, 1, 4, 0));
    lemma_tm(p, -486, 2, 0, 2, 0, 0, 4, 0, 3, 1, 1, 0, 2, 0, 0, 0);
    assert(t24 * s1 == (-1458) * mn(p, 3, 1, 2, 2, 0, 4, 0));
    lemma_tm(p, -486, 2, 0, 2, 0, 0, 4, 0, -3, 1, 1, 0, 0, 0, 2, 0);
    assert(t24 * s2 == (1458) * mn(p, 3, 1, 2, 0, 0, 6, 0));
    lemma_tm(p, -486, 2, 0, 2, 0, 0, 4, 0, -6, 1, 0, 1, 0, 1, 1, 0);
    assert(t24 * s3 == (2916) * mn(p, 3, 0, 3, 0, 1, 5, 0));
    lemma_tm(p, -486, 2, 0, 2, 0, 0, 4, 0, 1, 0, 2, 0, 0, 1, 1, 0);
    assert(t24 * s4 == (-486) * mn(p, 2, 2, 2, 0, 1, 5, 0));
    lemma_tm(p, -486, 2, 0, 2, 0, 0, 4, 0, -6, 0, 1, 1, 1, 0, 1, 0);
    assert(t24 * s5 == (2916) * mn(p, 2, 1, 3, 1, 0, 5, 0));
    lemma_tm(p, -486, 2, 0, 2, 0, 0, 4, 0, 1, 0, 1, 1, 0, 2, 0, 0);
    assert(t24 * s6 == (-486) * mn(p, 2, 1, 3, 0, 2, 4, 0));
    lemma_tm(p, -486, 2, 0, 2, 0, 0, 4, 0, 3, 0, 1, 1, 0, 0, 2, 1);
    assert(t24 * s7 == (-1458) * mn(p, 2, 1, 3, 0, 0, 6, 1));
    lemma_tm(p, -486, 2, 0, 2, 0, 0, 4, 0, -3, 0, 0, 2, 1, 1, 0, 0);
    assert(t24 * s8 == (1458) * mn(p, 2, 0, 4, 1, 1, 4, 0));
    lemma_tm(p, -486, 2, 0, 2, 0, 0, 4, 0, 3, 0, 0, 2, 0, 1, 1, 1);
    assert(t24 * s9 == (-1458) * mn(p, 2, 0, 4, 0, 1, 5, 1));
    assert(t24 * q == (-1458) * mn(p, 4, 0, 2, 1, 1, 4, 0) + (-1458) * mn(p, 3, 1, 2, 2, 0, 4, 0) + (1458) * mn(p, 3, 1, 2, 0, 0, 6, 0) + (2916) * mn(p, 3, 0, 3, 0, 1, 5, 0) + (-486) * mn(p, 2, 2, 2, 0, 1, 5, 0) + (2916) * mn(p, 2, 1, 3, 1, 0, 5, 0) + (-486) * mn(p, 2, 1, 3, 0, 2, 4, 0) + (-1458) * mn(p, 2, 1, 3, 0, 0, 6, 1) + (1458) * mn(p, 2, 0, 4, 1, 1, 4, 0) + (-1458) * mn(p, 2, 0, 4, 0, 1, 5, 1));
    lemma_tm(p, 18, 1, 2, 1, 2, 2, 0, 1, 3, 2, 0, 0, 1, 1, 0, 0);
    assert(t25 * s0 == (54) * mn(p, 3, 2, 1, 3, 3, 0, 1));
    lemma_tm(p, 18, 1, 2, 1, 2, 2, 0, 1, 3, 1, 1, 0, 2, 0, 0, 0);
    assert(t25 * s1 == (54) * mn(p, 2, 3, 1, 4, 2, 0, 1));
    lemma_tm(p, 18, 1, 2, 1, 2, 2, 0, 1, -3, 1, 1, 0, 0, 0, 2, 0);
    assert(t25 * s2 == (-54) * mn(p, 2, 3, 1, 2, 2, 2, 1));
    lemma_tm(p, 18, 1, 2, 1, 2, 2, 0, 1, -6, 1, 0, 1, 0, 1, 1, 0);
    assert(t25 * s3 == (-108) * mn(p, 2, 2, 2, 2, 3, 1, 1));
    lemma_tm(p, 18, 1, 2, 1, 2, 2, 0, 1, 1, 0, 2, 0, 0, 1, 1, 0);
    assert(t25 * s4 == (18) * mn(p, 1, 4, 1, 2, 3, 1, 1));
    lemma_tm(p, 18, 1, 2, 1, 2, 2, 0, 1, -6, 0, 1, 1, 1, 0, 1, 0);
    assert(t25 * s5 == (-108) * mn(p, 1, 3, 2, 3, 2, 1, 1));
    lemma_tm(p, 18, 1, 2, 1, 2, 2, 0, 1, 1, 0, 1, 1, 0, 2, 0, 0);
    assert(t25 * s6 == (18) * mn(p, 1, 3, 2, 2, 4, 0, 1));
    lemma_tm(p, 18, 1, 2, 1, 2, 2, 0, 1, 3, 0, 1, 1, 0, 0, 2, 1);
    assert(t25 * s7 == (54) * mn(p, 1, 3, 2, 2, 2, 2, 2));
    lemma_tm(p, 18, 1, 2, 1, 2, 2, 0, 1, -3, 0, 0, 2, 1, 1, 0, 0);
    assert(t25 * s8 == (-54) * mn(p, 1, 2, 3, 3, 3, 0, 1));
    lemma_tm(p, 18, 1, 2, 1, 2, 2, 0, 1, 3, 0, 0, 2, 0, 1, 1, 1);
    assert(t25 * s9 == (54) * mn(p, 1, 2, 3, 2, 3, 1, 2));
    assert(t25 * q == (54) * mn(p, 3, 2, 1, 3, 3, 0, 1) + (54) * mn(p, 2, 3, 1, 4, 2, 0, 1) + (-54) * mn(p, 2, 3, 1, 2, 2, 2, 1) + (-108) * mn(p, 2, 2, 2, 2, 3, 1, 1) + (18) * mn(p, 1, 4, 1, 2, 3, 1, 1) + (-108) * mn(p, 1, 3, 2, 3, 2, 1, 1) + (18) * mn(p, 1, 3, 2, 2, 4, 0, 1) + (54) * mn(p, 1, 3, 2, 2, 2, 2, 2) + (-54) * mn(p, 1, 2, 3, 3, 3, 0, 1) + (54) * mn(p, 1, 2, 3, 2, 3, 1, 2));
    lemma_tm(p, -72, 1, 2, 1, 1, 2, 1, 0, 3, 2, 0, 0, 1, 1, 0, 0);
    assert(t26 * s0 == (-216) * mn(p, 3, 2, 1, 2, 3, 1, 0));
    lemma_tm(p, -72, 1, 2, 1, 1, 2, 1, 0, 3, 1, 1, 0, 2, 0, 0, 0);
    assert(t26 * s1 == (-216) * mn(p, 2, 3, 1, 3, 2, 1, 0));
    lemma_tm(p, -72, 1, 2, 1, 1, 2, 1, 0, -3, 1, 1, 0, 0, 0, 2, 0);
    assert(t26 * s2 == (216) * mn(p, 2, 3, 1, 1, 2, 3, 0));
    lemma_tm(p, -72, 1, 2, 1, 1, 2, 1, 0, -6, 1, 0, 1, 0, 1, 1, 0);
    assert(t26 * s3 == (432) * mn(p, 2, 2, 2, 1, 3, 2, 0));
    lemma_tm(p, -72, 1, 2, 1, 1, 2, 1, 0, 1, 0, 2, 0, 0, 1, 1, 0);
    assert(t26 * s4 == (-72) * mn(p, 1, 4, 1, 1, 3, 2, 0));
    lemma_tm(p, -72, 1, 2, 1, 1, 2, 1, 0, -6, 0, 1, 1, 1, 0, 1, 0);
    assert(t26 * s5 == (432) * mn(p, 1, 3, 2, 2, 2, 2, 0));
    lemma_tm(p, -72, 1, 2, 1, 1, 2, 1, 0, 1, 0, 1, 1, 0, 2, 0, 0);
    assert(t26 * s6 == (-72) * mn(p, 1, 3, 2, 1, 4, 1, 0));
    lemma_tm(p, -72, 1, 2, 1, 1, 2, 1, 0, 3, 0, 1, 1, 0, 0, 2, 1);
    assert(t26 * s7 == (-216) * mn(p, 1, 3, 2, 1, 2, 3, 1));
    lemma_tm(p, -72, 1, 2, 1, 1, 2, 1, 0, -3, 0, 0, 2, 1, 1, 0, 0);
    assert(t26 * s8 == (216) * mn(p, 1, 2, 3, 2, 3, 1, 0));
    lemma_tm(p, -72, 1, 2, 1, 1, 2, 1, 0, 3, 0, 0, 2, 0, 1, 1, 1);
    assert(t26 * s9 == (-216) * mn(p, 1, 2, 3, 1, 3, 2, 1));
    assert(t26 * q == (-216) * mn(p, 3, 2, 1, 2, 3, 1, 0) + (-216) * mn(p, 2, 3, 1, 3, 2, 1, 0) + (216) * mn(p, 2, 3, 1, 1, 2, 3, 0) + (432) * mn(p, 2, 2, 2, 1, 3, 2, 0) + (-72) * mn(p, 1, 4, 1, 1, 3, 2, 0) + (432) * mn(p, 1, 3, 2, 2, 2, 2, 0) + (-72) * mn(p, 1, 3, 2, 1, 4, 1, 0) + (-216) * mn(p, 1, 3, 2, 1, 2, 3, 1) + (216) * mn(p, 1, 2, 3, 2, 3, 1, 0) + (-216) * mn(p, 1, 2, 3, 1, 3, 2, 1));
    lemma_tm(p, 18, 1, 2, 1, 0, 2, 2, 1, 3, 2, 0, 0, 1, 1, 0, 0);
    assert(t27 * s0 == (54) * mn(p, 3, 2, 1, 1, 3, 2, 1));
    lemma_tm(p, 18, 1, 2, 1, 0, 2, 2, 1, 3, 1, 1, 0, 2, 0, 0, 0);
    assert(t27 * s1 == (54) * mn(p, 2, 3, 1, 2, 2, 2, 1));
    lemma_tm(p, 18, 1, 2, 1, 0, 2, 2, 1, -3, 1, 1, 0, 0, 0, 2, 0);
    assert(t27 * s2 == (-54) * mn(p, 2, 3, 1, 0, 2, 4, 1));
    lemma_tm(p, 18, 1, 2, 1, 0, 2, 2, 1, -6, 1, 0, 1, 0, 1, 1, 0);
    assert(t27 * s3 == (-108) * mn(p, 2, 2, 2, 0, 3, 3, 1));
    lemma_tm(p, 18, 1, 2, 1, 0, 2, 2, 1, 1, 0, 2, 0, 0, 1, 1, 0);
    assert(t27 * s4 == (18) * mn(p, 1, 4, 1, 0, 3, 3, 1));
    lemma_tm(p, 18, 1, 2, 1, 0, 2, 2, 1, -6, 0, 1, 1, 1, 0, 1, 0);
    assert(t27 * s5 == (-108) * mn(p, 1, 3, 2, 1, 2, 3, 1));
    lemma_tm(p, 18, 1, 2, 1, 0, 2, 2, 1, 1, 0, 1, 1, 0, 2, 0, 0);
    assert(t27 * s6 == (18) * mn(p, 1, 3, 2, 0, 4, 2, 1));
    lemma_tm(p, 18, 1, 2, 1, 0, 2, 2, 1, 3, 0, 1, 1, 0, 0, 2, 1);
    assert(t27 * s7 == (54) * mn(p, 1, 3, 2, 0, 2, 4, 2));
    lemma_tm(p, 18, 1, 2, 1, 0, 2, 2, 1, -3, 0, 0, 2, 1, 1, 0, 0);
    assert(t27 * s8 == (-54) * mn(p, 1, 2, 3, 1, 3, 2, 1));
    lemma_tm(p, 18, 1, 2, 1, 0, 2, 2, 1, 3, 0, 0, 2, 0, 1, 1, 1);
    assert(t27 * s9 == (54) * mn(p, 1, 2, 3, 0, 3, 3, 2));
    assert(t27 * q == (54) * mn(p, 3, 2, 1, 1, 3, 2, 1) + (54) * mn(p, 2, 3, 1, 2, 2, 2, 1) + (-54) * mn(p, 2, 3, 1, 0, 2, 4, 1) + (-108) * mn(p, 2, 2, 2, 0, 3, 3, 1) + (18) * mn(p, 1, 4, 1, 0, 3, 3, 1) + (-108) * mn(p, 1, 3, 2, 1, 2, 3, 1) + (18) * mn(p, 1, 3, 2, 0, 4, 2, 1) + (54) * mn(p, 1, 3, 2, 0, 2, 4, 2) + (-54) * mn(p, 1, 2, 3, 1, 3, 2, 1) + (54) * mn(p, 1, 2, 3, 0, 3, 3, 2));
    lemma_tm(p, -162, 1, 0, 3, 4, 0, 0, 1, 3, 2, 0, 0, 1, 1, 0, 0);
    assert(t28 * s0 == (-486) * mn(p, 3, 0, 3, 5, 1, 0, 1));
    lemma_tm(p, -162, 1, 0, 3, 4, 0, 0, 1, 3, 1, 1, 0, 2, 0, 0, 0);
    assert(t28 * s1 == (-486) * mn(p, 2, 1, 3, 6, 0, 0, 1));
    lemma_tm(p, -162, 1, 0, 3, 4, 0, 0, 1, -3, 1, 1, 0, 0, 0, 2, 0);
    assert(t28 * s2 == (486) * mn(p, 2, 1, 3, 4, 0, 2, 1));
    lemma_tm(p, -162, 1, 0, 3, 4, 0, 0, 1, -6, 1, 0, 1, 0, 1, 1, 0);
    assert(t28 * s3 == (972) * mn(p, 2, 0, 4, 4, 1, 1, 1));
    lemma_tm(p, -162, 1, 0, 3, 4, 0, 0, 1, 1, 0, 2, 0, 0, 1, 1, 0);
    assert(t28 * s4 == (-162) * mn(p, 1, 2, 3, 4, 1, 1, 1));
    lemma_tm(p, -162, 1, 0, 3, 4, 0, 0, 1, -6, 0, 1, 1, 1, 0, 1, 0);
    assert(t28 * s5 == (972) * mn(p, 1, 1, 4, 5, 0, 1, 1));
    lemma_tm(p, -162, 1, 0, 3, 4, 0, 0, 1, 1, 0, 1, 1, 0, 2, 0, 0);
    assert(t28 * s6 == (-162) * mn(p, 1, 1, 4, 4, 2, 0, 1));
    lemma_tm(p, -162, 1, 0, 3, 4, 0, 0, 1, 3, 0, 1, 1, 0, 0, 2, 1);
    assert(t28 * s7 == (-486) * mn(p, 1, 1, 4, 4, 0, 2, 2));
    lemma_tm(p, -162, 1, 0, 3, 4, 0, 0, 1, -3, 0, 0, 2, 1, 1, 0, 0);
    assert(t28 * s8 == (486) * mn(p, 1, 0, 5, 5, 1, 0, 1));
    lemma_tm(p, -162, 1, 0, 3, 4, 0, 0, 1, 3, 0, 0, 2, 0, 1, 1, 1);
    assert(t28 * s9 == (-486) * mn(p, 1, 0, 5, 4, 1, 1, 2));
    assert(t28 * q == (-486) * mn(p, 3, 0, 3, 5, 1, 0, 1) + (-486) * mn(p, 2, 1, 3, 6, 0, 0, 1) + (486) * mn(p, 2, 1, 3, 4, 0, 2, 1) + (972) * mn(p, 2, 0, 4, 4, 1, 1, 1) + (-162) * mn(p, 1, 2, 3, 4, 1, 1, 1) + (972) * mn(p, 1, 1, 4, 5, 0, 1, 1) + (-162) * mn(p, 1, 1, 4, 4, 2, 0, 1) + (-486) * mn(p, 1, 1, 4, 4, 0, 2, 2) + (486) * mn(p, 1, 0, 5, 5, 1, 0, 1) + (-486) * mn(p, 1, 0, 5, 4, 1, 1, 2));
    lemma_tm(p, 162, 1, 0, 3, 3, 0, 1, 2, 3, 2, 0, 0, 1, 1, 0, 0);
    assert(t29 * s0 == (486) * mn(p, 3, 0, 3, 4, 1, 1, 2));
    lemma_tm(p, 162, 1, 0, 3, 3, 0, 1, 2, 3, 1, 1, 0, 2, 0, 0, 0);
    assert(t29 * s1 == (486) * mn(p, 2, 1, 3, 5, 0, 1, 2));
    lemma_tm(p, 162, 1, 0, 3, 3, 0, 1, 2, -3, 1, 1, 0, 0, 0, 2, 0);
    assert(t29 * s2 == (-486) * mn(p, 2, 1, 3, 3, 0, 3, 2));
    lemma_tm(p, 162, 1, 0, 3, 3, 0, 1, 2, -6, 1, 0, 1, 0, 1, 1, 0);
    assert(t29 * s3 == (-972) * mn(p, 2, 0, 4, 3, 1, 2, 2));
    lemma_tm(p, 162, 1, 0, 3, 3, 0, 1, 2, 1, 0, 2, 0, 0, 1, 1, 0);
    assert(t29 * s4 == (162) * mn(p, 1, 2, 3, 3, 1, 2, 2));
    lemma_tm(p, 162, 1, 0, 3, 3, 0, 1, 2, -6, 0, 1, 1, 1, 0, 1, 0);
    assert(t29 * s5 == (-972) * mn(p, 1, 1, 4, 4, 0, 2, 2));
    lemma_tm(p, 162, 1, 0, 3, 3, 0, 1, 2, 1, 0, 1, 1, 0, 2, 0, 0);
    assert(t29 * s6 == (162) * mn(p, 1, 1, 4, 3, 2, 1, 2));
    lemma_tm(p, 162, 1, 0, 3, 3, 0, 1, 2, 3, 0, 1, 1, 0, 0, 2, 1);
    assert(t29 * s7 == (486) * mn(p, 1, 1, 4, 3, 0, 3, 3));
    lemma_tm(p, 162, 1, 0, 3, 3, 0, 1, 2, -3, 0, 0, 2, 1, 1, 0, 0);
    assert(t29 * s8 == (-486) * mn(p, 1, 0, 5, 4, 1, 1, 2));
    lemma_tm(p, 162, 1, 0, 3, 3, 0, 1, 2, 3, 0, 0, 2, 0, 1, 1, 1);
    assert(t29 * s9 == (486) * mn(p, 1, 0, 5, 3, 1, 2, 3));
    assert(t29 * q == (486) * mn(p, 3, 0, 3, 4, 1, 1, 2) + (486) * mn(p, 2, 1, 3, 5, 0, 1, 2) + (-486) * mn(p, 2, 1, 3, 3, 0, 3, 2) + (-972) * mn(p, 2, 0, 4, 3, 1, 2, 2) + (162) * mn(p, 1, 2, 3, 3, 1, 2, 2) + (-972) * mn(p, 1, 1, 4, 4, 0, 2, 2) + (162) * mn(p, 1, 1, 4, 3, 2, 1, 2) + (486) * mn(p, 1, 1, 4, 3, 0, 3, 3) + (-486) * mn(p, 1, 0, 5, 4, 1, 1, 2) + (486) * mn(p, 1, 0, 5, 3, 1, 2, 3));
    lemma_tm(p, 648, 1, 0, 3, 3, 0, 1, 0, 3, 2, 0, 0, 1, 1, 0, 0);
    assert(t30 * s0 == (1944) * mn(p, 3, 0, 3, 4, 1, 1, 0));
    lemma_tm(p, 648, 1, 0, 3, 3, 0, 1, 0, 3, 1, 1, 0, 2, 0, 0, 0);
    assert(t30 * s1 == (1944) * mn(p, 2, 1, 3, 5, 0, 1, 0));
    lemma_tm(p, 648, 1, 0, 3, 3, 0, 1, 0, -3, 1, 1, 0, 0, 0, 2, 0);
    assert(t30 * s2 == (-1944) * mn(p, 2, 1, 3, 3, 0, 3, 0));
    lemma_tm(p, 648, 1, 0, 3, 3, 0, 1, 0, -6, 1, 0, 1, 0, 1, 1, 0);
    assert(t30 * s3 == (-3888) * mn(p, 2, 0, 4, 3, 1, 2, 0));
    lemma_tm(p, 648, 1, 0, 3, 3, 0, 1, 0, 1, 0, 2, 0, 0, 1, 1, 0);
    assert(t30 * s4 == (648) * mn(p, 1, 2, 3, 3, 1, 2, 0));
    lemma_tm(p, 648, 1, 0, 3, 3, 0, 1, 0, -6, 0, 1, 1, 1, 0, 1, 0);
    assert(t30 * s5 == (-3888) * mn(p, 1, 1, 4, 4, 0, 2, 0));
    lemma_tm(p, 648, 1, 0, 3, 3, 0, 1, 0, 1, 0, 1, 1, 0, 2, 0, 0);
    assert(t30 * s6 == (648) * mn(p, 1, 1, 4, 3, 2, 1, 0));
    lemma_tm(p, 648, 1, 0, 3, 3, 0, 1, 0, 3, 0, 1, 1, 0, 0, 2, 1);
    assert(t30 * s7 == (1944) * mn(p, 1, 1, 4, 3, 0, 3, 1));
    lemma_tm(p, 648, 1, 0, 3, 3, 0, 1, 0, -3, 0, 0, 2, 1, 1, 0, 0);
    assert(t30 * s8 == (-1944) * mn(p, 1, 0, 5, 4, 1, 1, 0));
    lemma_tm(p, 648, 1, 0, 3, 3, 0, 1, 0, 3, 0, 0, 2, 0, 1, 1, 1);
    assert(t30 * s9 == (1944) * mn(p, 1, 0, 5, 3, 1, 2, 1));
    assert(t30 * q == (1944) * mn(p, 3, 0, 3, 4, 1, 1, 0) + (1944) * mn(p, 2, 1, 3, 5, 0, 1, 0) + (-1944) * mn(p, 2, 1, 3, 3, 0, 3, 0) + (-3888) * mn(p, 2, 0, 4, 3, 1, 2, 0) + (648) * mn(p, 1, 2, 3, 3, 1, 2, 0) + (-3888) * mn(p, 1, 1, 4, 4, 0, 2, 0) + (648) * mn(p, 1, 1, 4, 3, 2, 1, 0) + (1944) * mn(p, 1, 1, 4, 3, 0, 3, 1) + (-1944) * mn(p, 1, 0, 5, 4, 1, 1, 0) + (1944) * mn(p, 1, 0, 5, 3, 1, 2, 1));
    lemma_tm(p, -162, 1, 0, 3, 2, 0, 2, 3, 3, 2, 0, 0, 1, 1, 0, 0);
    assert(t31 * s0 == (-486) * mn(p, 3, 0, 3, 3, 1, 2, 3));
    lemma_tm(p, -162, 1, 0, 3, 2, 0, 2, 3, 3, 1, 1, 0, 2, 0, 0, 0);
    assert(t31 * s1 == (-486) * mn(p, 2, 1, 3, 4, 0, 2, 3));
    lemma_tm(p, -162, 1, 0, 3, 2, 0, 2, 3, -3, 1, 1, 0, 0, 0, 2, 0);
    assert(t31 * s2 == (486) * mn(p, 2, 1, 3, 2, 0, 4, 3));
    lemma_tm(p, -162, 1, 0, 3, 2, 0, 2, 3, -6, 1, 0, 1, 0, 1, 1, 0);
    assert(t31 * s3 == (972) * mn(p, 2, 0, 4, 2, 1, 3, 3));
    lemma_tm(p, -162, 1, 0, 3, 2, 0, 2, 3, 1, 0, 2, 0, 0, 1, 1, 0);
    assert(t31 * s4 == (-162) * mn(p, 1, 2, 3, 2, 1, 3, 3));
    lemma_tm(p, -162, 1, 0, 3, 2, 0, 2, 3, -6, 0, 1, 1, 1, 0, 1, 0);
    assert(t31 * s5 == (972) * mn(p, 1, 1, 4, 3, 0, 3, 3));
    lemma_tm(p, -162, 1, 0, 3, 2, 0, 2, 3, 1, 0, 1, 1, 0, 2, 0, 0);
    assert(t31 * s6 == (-162) * mn(p, 1, 1, 4, 2, 2, 2, 3));
    lemma_tm(p, -162, 1, 0, 3, 2, 0, 2, 3, 3, 0, 1, 1, 0, 0, 2, 1);
    assert(t31 * s7 == (-486) * mn(p, 1, 1, 4, 2, 0, 4, 4));
    lemma_tm(p, -162, 1, 0, 3, 2, 0, 2, 3, -3, 0, 0, 2, 1, 1, 0, 0);
    assert(t31 * s8 == (486) * mn(p, 1, 0, 5, 3, 1, 2, 3));
    lemma_tm(p, -162, 1, 0, 3, 2, 0, 2, 3, 3, 0, 0, 2, 0, 1, 1, 1);
    assert(t31 * s9 == (-486) * mn(p, 1, 0, 5, 2, 1, 3, 4));
    assert(t31 * q == (-486) * mn(p, 3, 0, 3, 3, 1, 2, 3) + (-486) * mn(p, 2, 1, 3, 4, 0, 2, 3) + (486) * mn(p, 2, 1, 3, 2, 0, 4, 3) + (972) * mn(p, 2, 0, 4, 2, 1, 3, 3) + (-162) * mn(p, 1, 2, 3, 2, 1, 3, 3) + (972) * mn(p, 1, 1, 4, 3, 0, 3, 3) + (-162) * mn(p, 1, 1, 4, 2, 2, 2, 3) + (-486) * mn(p, 1, 1, 4, 2, 0, 4, 4) + (486) * mn(p, 1, 0, 5, 3, 1, 2, 3) + (-486) * mn(p, 1, 0, 5, 2, 1, 3, 4));
    assert(pp31 * q == ((((((((243) * mn(p, 6, 0, 0, 5, 1, 0, 0) + ((-486) * mn(p, 6, 0, 0, 4, 1, 1, 1) + (243) * mn(p, 6, 0, 0, 3, 1, 2, 2))) + ((486) * mn(p, 6, 0, 0, 3, 1, 2, 0) + ((-486) * mn(p, 6, 0, 0, 2, 1, 3, 1) + (243) * mn(p, 6, 0, 0, 1, 1, 4, 0)))) + (((243) * mn(p, 5, 1, 0, 6, 0, 0, 0) + ((-486) * mn(p, 5, 1, 0, 5, 0, 1, 1) + (243) * mn(p, 5, 1, 0, 4, 0, 2, 2))) + ((243) * mn(p, 5, 1, 0, 4, 0, 2, 0) + ((-243) * mn(p, 5, 1, 0, 2, 0, 4, 2) + (-243) * mn(p, 5, 1, 0, 2, 0, 4, 0))))) + ((((486) * mn(p, 5, 1, 0, 1, 0, 5, 1) + ((-243) * mn(p, 5, 1, 0, 0, 0, 6, 0) + (-486) * mn(p, 5, 0, 1, 5, 1, 0, 1))) + ((486) * mn(p, 5, 0, 1, 4, 1, 1, 2) + ((1458) * mn(p, 5, 0, 1, 4, 1, 1, 0) + (-1944) * mn(p, 5, 0, 1, 3, 1, 2, 1)))) + (((972) * mn(p, 5, 0, 1, 2, 1, 3, 0) + ((486) * mn(p, 5, 0, 1, 1, 1, 4, 1) + (-486) * mn(p, 5, 0, 1, 0, 1, 5, 0))) + ((81) * mn(p, 4, 2, 0, 4, 1, 1, 0) + ((-54) * mn(p, 4, 2, 0, 3, 3, 0, 0) + (-162) * mn(p, 4, 2, 0, 3, 1, 2, 1)))))) + (((((54) * mn(p, 4, 2, 0, 2, 3, 1, 1) + ((81) * mn(p, 4, 2, 0, 2, 1, 3, 2) + (162) * mn(p, 4, 2, 0, 2, 1, 3, 0))) + ((-54) * mn(p, 4, 2, 0, 1, 3, 2, 0) + ((-162) * mn(p, 4, 2, 0, 1, 1, 4, 1) + (81) * mn(p, 4, 2, 0, 0, 1, 5, 0)))) + (((-486) * mn(p, 4, 1, 1, 6, 0, 0, 1) + ((486) * mn(p, 4, 1, 1, 5, 0, 1, 2) + (1458) * mn(p, 4, 1, 1, 5, 0, 1, 0))) + ((81) * mn(p, 4, 1, 1, 4, 2, 0, 0) + ((-1215) * mn(p, 4, 1, 1, 4, 0, 2, 1) + (-162) * mn(p, 4, 1, 1, 3, 2, 1, 1))))) + ((((-972) * mn(p, 4, 1, 1, 3, 0, 3, 2) + ((-972) * mn(p, 4, 1, 1, 3, 0, 3, 0) + (81) * mn(p, 4, 1, 1, 2, 2, 2, 2))) + ((162) * mn(p, 4, 1, 1, 2, 2, 2, 0) + ((243) * mn(p, 4, 1, 1, 2, 0, 4, 3) + (3888) * mn(p, 4, 1, 1, 2, 0, 4, 1)))) + (((-162) * mn(p, 4, 1, 1, 1, 2, 3, 1) + ((-972) * mn(p, 4, 1, 1, 1, 0, 5, 2) + (-2430) * mn(p, 4, 1, 1, 1, 0, 5, 0))) + (((81) * mn(p, 4, 1, 1, 0, 2, 4, 0) + (729) * mn(p, 4, 1, 1, 0, 0, 6, 1)) + ((243) * mn(p, 4, 0, 2, 5, 1, 0, 2) + (243) * mn(p, 4, 0, 2, 5, 1, 0, 0))))))) + ((((((-1215) * mn(p, 4, 0, 2, 4, 1, 1, 1) + ((-243) * mn(p, 4, 0, 2, 3, 1, 2, 2) + (-1458) * mn(p, 4, 0, 2, 3, 1, 2, 0))) + ((-243) * mn(p, 4, 0, 2, 2, 1, 3, 3) + ((5832) * mn(p, 4, 0, 2, 2, 1, 3, 1) + (-729) * mn(p, 4, 0, 2, 1, 1, 4, 2)))) + (((-5589) * mn(p, 4, 0, 2, 1, 1, 4, 0) + ((1215) * mn(p, 4, 0, 2, 0, 1, 5, 1) + (-54) * mn(p, 3, 3, 0, 4, 2, 0, 0))) + ((54) * mn(p, 3, 3, 0, 3, 2, 1, 1) + ((-54) * mn(p, 3, 3, 0, 1, 2, 3, 1) + (54) * mn(p, 3, 3, 0, 0, 2, 4, 0))))) + ((((-162) * mn(p, 3, 2, 1, 4, 1, 1, 1) + ((54) * mn(p, 3, 2, 1, 3, 3, 0, 1) + (162) * mn(p, 3, 2, 1, 3, 1, 2, 2))) + ((648) * mn(p, 3, 2, 1, 3, 1, 2, 0) + ((-108) * mn(p, 3, 2, 1, 2, 3, 1, 0) + (-972) * mn(p, 3, 2, 1, 2, 1, 3, 1)))) + (((-54) * mn(p, 3, 2, 1, 1, 3, 2, 1) + ((162) * mn(p, 3, 2, 1, 1, 1, 4, 2) + (648) * mn(p, 3, 2, 1, 1, 1, 4, 0))) + ((108) * mn(p, 3, 2, 1, 0, 3, 3, 0) + ((-162) * mn(p, 3, 2, 1, 0, 1, 5, 1) + (243) * mn(p, 3, 1, 2, 6, 0, 0, 2)))))) + (((((486) * mn(p, 3, 1, 2, 6, 0, 0, 0) + ((-1944) * mn(p, 3, 1, 2, 5, 0, 1, 1) + (-162) * mn(p, 3, 1, 2, 4, 2, 0, 1))) + ((-243) * mn(p, 3, 1, 2, 4, 0, 2, 2) + ((-1458) * mn(p, 3, 1, 2, 4, 0, 2, 0) + (162) * mn(p, 3, 1, 2, 3, 2, 1, 2)))) + (((648) * mn(p, 3, 1, 2, 3, 2, 1, 0) + ((9720) * mn(p, 3, 1, 2, 3, 0, 3, 1) + (-972) * mn(p, 3, 1, 2, 2, 2, 2, 1))) + ((-4617) * mn(p, 3, 1, 2, 2, 0, 4, 2) + ((-8262) * mn(p, 3, 1, 2, 2, 0, 4, 0) + (162) * mn(p, 3, 1, 2, 1, 2, 3, 2))))) + ((((648) * mn(p, 3, 1, 2, 1, 2, 3, 0) + ((972) * mn(p, 3, 1, 2, 1, 0, 5, 3) + (3888) * mn(p, 3, 1, 2, 1, 0, 5, 1))) + ((-162) * mn(p, 3, 1, 2, 0, 2, 4, 1) + ((-1215) * mn(p, 3, 1, 2, 0, 0, 6, 2) + (1458) * mn(p, 3, 1, 2, 0, 0, 6, 0)))) + (((-972) * mn(p, 3, 0, 3, 4, 1, 1, 2) + ((-972) * mn(p, 3, 0, 3, 4, 1, 1, 0) + (10692) * mn(p, 3, 0, 3, 3, 1, 2, 1))) + (((-6318) * mn(p, 3, 0, 3, 2, 1, 3, 2) + (-7776) * mn(p, 3, 0, 3, 2, 1, 3, 0)) + ((1458) * mn(p, 3, 0, 3, 1, 1, 4, 3) + (4374) * mn(p, 3, 0, 3, 1, 1, 4, 1)))))))) + (((((((-1944) * mn(p, 3, 0, 3, 0, 1, 5, 2) + ((2916) * mn(p, 3, 0, 3, 0, 1, 5, 0) + (-18) * mn(p, 2, 4, 0, 2, 3, 1, 0))) + ((18) * mn(p, 2, 4, 0, 1, 3, 2, 1) + ((-18) * mn(p, 2, 4, 0, 0, 3, 3, 0) + (54) * mn(p, 2, 3, 1, 4, 2, 0, 1)))) + (((-108) * mn(p, 2, 3, 1, 3, 2, 1, 0) + ((-18) * mn(p, 2, 3, 1, 2, 4, 0, 0) + (-162) * mn(p, 2, 3, 1, 2, 2, 2, 1))) + ((18) * mn(p, 2, 3, 1, 1, 4, 1, 1) + ((54) * mn(p, 2, 3, 1, 1, 2, 3, 2) + (324) * mn(p, 2, 3, 1, 1, 2, 3, 0))))) + ((((-18) * mn(p, 2, 3, 1, 0, 4, 2, 0) + ((-108) * mn(p, 2, 3, 1, 0, 2, 4, 1) + (81) * mn(p, 2, 2, 2, 4, 1, 1, 2))) + ((162) * mn(p, 2, 2, 2, 4, 1, 1, 0) + ((54) * mn(p, 2, 2, 2, 3, 3, 0, 0) + (-972) * mn(p, 2, 2, 2, 3, 1, 2, 1)))) + (((-216) * mn(p, 2, 2, 2, 2, 3, 1, 1) + ((486) * mn(p, 2, 2, 2, 2, 1, 3, 2) + (972) * mn(p, 2, 2, 2, 2, 1, 3, 0))) + ((54) * mn(p, 2, 2, 2, 1, 3, 2, 2) + ((486) * mn(p, 2, 2, 2, 1, 3, 2, 0) + (-162) * mn(p, 2, 2, 2, 1, 1, 4, 3)))))) + (((((-324) * mn(p, 2, 2, 2, 1, 1, 4, 1) + ((-162) * mn(p, 2, 2, 2, 0, 3, 3, 1) + (243) * mn(p, 2, 2, 2, 0, 1, 5, 2))) + ((-486) * mn(p, 2, 2, 2, 0, 1, 5, 0) + ((-486) * mn(p, 2, 1, 3, 6, 0, 0, 1) + (972) * mn(p, 2, 1, 3, 5, 0, 1, 0)))) + (((81) * mn(p, 2, 1, 3, 4, 2, 0, 2) + ((162) * mn(p, 2, 1, 3, 4, 2, 0, 0) + (-243) * mn(p, 2, 1, 3, 4, 0, 2, 3))) + ((6804) * mn(p, 2, 1, 3, 4, 0, 2, 1) + ((-972) * mn(p, 2, 1, 3, 3, 2, 1, 1) + (-6318) * mn(p, 2, 1, 3, 3, 0, 3, 2))))) + ((((-7776) * mn(p, 2, 1, 3, 3, 0, 3, 0) + ((486) * mn(p, 2, 1, 3, 2, 2, 2, 2) + (972) * mn(p, 2, 1, 3, 2, 2, 2, 0))) + ((2916) * mn(p, 2, 1, 3, 2, 0, 4, 3) + ((4860) * mn(p, 2, 1, 3, 2, 0, 4, 1) + (-162) * mn(p, 2, 1, 3, 1, 2, 3, 3)))) + (((-324) * mn(p, 2, 1, 3, 1, 2, 3, 1) + ((-486) * mn(p, 2, 1, 3, 1, 0, 5, 4) + (-2430) * mn(p, 2, 1, 3, 1, 0, 5, 2))) + (((2916) * mn(p, 2, 1, 3, 1, 0, 5, 0) + (243) * mn(p, 2, 1, 3, 0, 2, 4, 2)) + ((-486) * mn(p, 2, 1, 3, 0, 2, 4, 0) + (729) * mn(p, 2, 1, 3, 0, 0, 6, 3))))))) + ((((((-1458) * mn(p, 2, 1, 3, 0, 0, 6, 1) + ((-243) * mn(p, 2, 0, 4, 5, 1, 0, 2) + (-486) * mn(p, 2, 0, 4, 5, 1, 0, 0))) + ((243) * mn(p, 2, 0, 4, 4, 1, 1, 3) + ((4374) * mn(p, 2, 0, 4, 4, 1, 1, 1) + (-5346) * mn(p, 2, 0, 4, 3, 1, 2, 2)))) + (((-6804) * mn(p, 2, 0, 4, 3, 1, 2, 0) + ((2916) * mn(p, 2, 0, 4, 2, 1, 3, 3) + (3888) * mn(p, 2, 0, 4, 2, 1, 3, 1))) + ((-486) * mn(p, 2, 0, 4, 1, 1, 4, 4) + ((-1701) * mn(p, 2, 0, 4, 1, 1, 4, 2) + (1458) * mn(p, 2, 0, 4, 1, 1, 4, 0))))) + ((((729) * mn(p, 2, 0, 4, 0, 1, 5, 3) + ((-1458) * mn(p, 2, 0, 4, 0, 1, 5, 1) + (18) * mn(p, 1, 4, 1, 2, 3, 1, 1))) + ((-72) * mn(p, 1, 4, 1, 1, 3, 2, 0) + ((18) * mn(p, 1, 4, 1, 0, 3, 3, 1) + (-108) * mn(p, 1, 3, 2, 3, 2, 1, 1)))) + (((18) * mn(p, 1, 3, 2, 2, 4, 0, 1) + ((54) * mn(p, 1, 3, 2, 2, 2, 2, 2) + (432) * mn(p, 1, 3, 2, 2, 2, 2, 0))) + (((-72) * mn(p, 1, 3, 2, 1, 4, 1, 0) + (-324) * mn(p, 1, 3, 2, 1, 2, 3, 1)) + ((18) * mn(p, 1, 3, 2, 0, 4, 2, 1) + (54) * mn(p, 1, 3, 2, 0, 2, 4, 2)))))) + (((((-162) * mn(p, 1, 2, 3, 4, 1, 1, 1) + ((-54) * mn(p, 1, 2, 3, 3, 3, 0, 1) + (162) * mn(p, 1, 2, 3, 3, 1, 2, 2))) + ((648) * mn(p, 1, 2, 3, 3, 1, 2, 0) + ((54) * mn(p, 1, 2, 3, 2, 3, 1, 2) + (216) * mn(p, 1, 2, 3, 2, 3, 1, 0)))) + (((-162) * mn(p, 1, 2, 3, 2, 1, 3, 3) + ((-270) * mn(p, 1, 2, 3, 1, 3, 2, 1) + (54) * mn(p, 1, 2, 3, 0, 3, 3, 2))) + ((972) * mn(p, 1, 1, 4, 5, 0, 1, 1) + ((-162) * mn(p, 1, 1, 4, 4, 2, 0, 1) + (-1458) * mn(p, 1, 1, 4, 4, 0, 2, 2))))) + ((((-3888) * mn(p, 1, 1, 4, 4, 0, 2, 0) + ((162) * mn(p, 1, 1, 4, 3, 2, 1, 2) + (648) * mn(p, 1, 1, 4, 3, 2, 1, 0))) + ((1458) * mn(p, 1, 1, 4, 3, 0, 3, 3) + ((1944) * mn(p, 1, 1, 4, 3, 0, 3, 1) + (-162) * mn(p, 1, 1, 4, 2, 2, 2, 3)))) + (((-486) * mn(p, 1, 1, 4, 2, 0, 4, 4) + ((486) * mn(p, 1, 0, 5, 5, 1, 0, 1) + (-972) * mn(p, 1, 0, 5, 4, 1, 1, 2))) + (((-1944) * mn(p, 1, 0, 5, 4, 1, 1, 0) + (972) * mn(p, 1, 0, 5, 3, 1, 2, 3)) + ((1944) * mn(p, 1, 0, 5, 3, 1, 2, 1) + (-486) * mn(p, 1, 0, 5, 2, 1, 3, 4))))))))));
    assert(pp31 == ((((((81) * mn(p, 4, 0, 0, 4, 0, 0, 0) + (-162) * mn(p, 4, 0, 0, 3, 0, 1, 1)) + ((81) * mn(p, 4, 0, 0, 2, 0, 2, 2) + (162) * mn(p, 4, 0, 0, 2, 0, 2, 0))) + (((-162) * mn(p, 4, 0, 0, 1, 0, 3, 1) + (81) * mn(p, 4, 0, 0, 0, 0, 4, 0)) + ((-162) * mn(p, 3, 0, 1, 4, 0, 0, 1) + (162) * mn(p, 3, 0, 1, 3, 0, 1, 2)))) + ((((648) * mn(p, 3, 0, 1, 3, 0, 1, 0) + (-972) * mn(p, 3, 0, 1, 2, 0, 2, 1)) + ((162) * mn(p, 3, 0, 1, 1, 0, 3, 2) + (648) * mn(p, 3, 0, 1, 1, 0, 3, 0))) + (((-162) * mn(p, 3, 0, 1, 0, 0, 4, 1) + (-18) * mn(p, 2, 2, 0, 2, 2, 0, 0)) + ((18) * mn(p, 2, 2, 0, 1, 2, 1, 1) + (-18) * mn(p, 2, 2, 0, 0, 2, 2, 0))))) + (((((81) * mn(p, 2, 0, 2, 4, 0, 0, 2) + (162) * mn(p, 2, 0, 2, 4, 0, 0, 0)) + ((-972) * mn(p, 2, 0, 2, 3, 0, 1, 1) + (486) * mn(p, 2, 0, 2, 2, 0, 2, 2))) + (((972) * mn(p, 2, 0, 2, 2, 0, 2, 0) + (-162) * mn(p, 2, 0, 2, 1, 0, 3, 3)) + ((-324) * mn(p, 2, 0, 2, 1, 0, 3, 1) + (243) * mn(p, 2, 0, 2, 0, 0, 4, 2)))) + ((((-486) * mn(p, 2, 0, 2, 0, 0, 4, 0) + (18) * mn(p, 1, 2, 1, 2, 2, 0, 1)) + ((-72) * mn(p, 1, 2, 1, 1, 2, 1, 0) + (18) * mn(p, 1, 2, 1, 0, 2, 2, 1))) + (((-162) * mn(p, 1, 0, 3, 4, 0, 0, 1) + (162) * mn(p, 1, 0, 3, 3, 0, 1, 2)) + ((648) * mn(p, 1, 0, 3, 3, 0, 1, 0) + (-162) * mn(p, 1, 0, 3, 2, 0, 2, 3)))))));
    assert(q == ((((3) * mn(p, 2, 0, 0, 1, 1, 0, 0) + (3) * mn(p, 1, 1, 0, 2, 0, 0, 0)) + ((-3) * mn(p, 1, 1, 0, 0, 0, 2, 0) + ((-6) * mn(p, 1, 0, 1, 0, 1, 1, 0) + (1) * mn(p, 0, 2, 0, 0, 1, 1, 0)))) + (((-6) * mn(p, 0, 1, 1, 1, 0, 1, 0) + (1) * mn(p, 0, 1, 1, 0, 2, 0, 0)) + ((3) * mn(p, 0, 1, 1, 0, 0, 2, 1) + ((-3) * mn(p, 0, 0, 2, 1, 1, 0, 0) + (3) * mn(p, 0, 0, 2, 0, 1, 1, 1))))));
}

#[verifier::rlimit(100)]
proof fn acb_prod2_c1(p: Pt)
    ensures
        ((((((-324) * mn(p, 1, 0, 3, 2, 0, 2, 1) + (810) * mn(p, 1, 0, 3, 1, 0, 3, 2)) + ((-1944) * mn(p, 1, 0, 3, 1, 0, 3, 0) + (-162) * mn(p, 1, 0, 3, 0, 0, 4, 3))) + (((486) * mn(p, 1, 0, 3, 0, 0, 4, 1) + (1) * mn(p, 0, 4, 0, 0, 4, 0, 0)) + ((-18) * mn(p, 0, 2, 2, 2, 2, 0, 0) + ((18) * mn(p, 0, 2, 2, 1, 2, 1, 1) + (-18) * mn(p, 0, 2, 2, 0, 2, 2, 2))))) + ((((54) * mn(p, 0, 2, 2, 0, 2, 2, 0) + (81) * mn(p, 0, 0, 4, 4, 0, 0, 0)) + ((-162) * mn(p, 0, 0, 4, 3, 0, 1, 1) + ((243) * mn(p, 0, 0, 4, 2, 0, 2, 2) + (-486) * mn(p, 0, 0, 4, 2, 0, 2, 0)))) + (((-162) * mn(p, 0, 0, 4, 1, 0, 3, 3) + (486) * mn(p, 0, 0, 4, 1, 0, 3, 1)) + ((81) * mn(p, 0, 0, 4, 0, 0, 4, 4) + ((-486) * mn(p, 0, 0, 4, 0, 0, 4, 2) + (729) * mn(p, 0, 0, 4, 0, 0, 4, 0))))))) * (((((3) * mn(p, 2, 0, 0, 1, 1, 0, 0) + (3) * mn(p, 1, 1, 0, 2, 0, 0, 0)) + ((-3) * mn(p, 1, 1, 0, 0, 0, 2, 0) + ((-6) * mn(p, 1, 0, 1, 0, 1, 1, 0) + (1) * mn(p, 0, 2, 0, 0, 1, 1, 0)))) + (((-6) * mn(p, 0, 1, 1, 1, 0, 1, 0) + (1) * mn(p, 0, 1, 1, 0, 2, 0, 0)) + ((3) * mn(p, 0, 1, 1, 0, 0, 2, 1) + ((-3) * mn(p, 0, 0, 2, 1, 1, 0, 0) + (3) * mn(p, 0, 0, 2, 0, 1, 1, 1)))))) == ((((((((-972) * mn(p, 3, 0, 3, 3, 1, 2, 1) + (2430) * mn(p, 3, 0, 3, 2, 1, 3, 2)) + ((-5832) * mn(p, 3, 0, 3, 2, 1, 3, 0) + (-486) * mn(p, 3, 0, 3, 1, 1, 4, 3))) + (((1458) * mn(p, 3, 0, 3, 1, 1, 4, 1) + (3) * mn(p, 2, 4, 0, 1, 5, 0, 0)) + ((-54) * mn(p, 2, 2, 2, 3, 3, 0, 0) + ((54) * mn(p, 2, 2, 2, 2, 3, 1, 1) + (-54) * mn(p, 2, 2, 2, 1, 3, 2, 2))))) + ((((162) * mn(p, 2, 2, 2, 1, 3, 2, 0) + (-972) * mn(p, 2, 1, 3, 4, 0, 2, 1)) + ((2430) * mn(p, 2, 1, 3, 3, 0, 3, 2) + (-5832) * mn(p, 2, 1, 3, 3, 0, 3, 0))) + (((-486) * mn(p, 2, 1, 3, 2, 0, 4, 3) + (2430) * mn(p, 2, 1, 3, 2, 0, 4, 1)) + ((-2430) * mn(p, 2, 1, 3, 1, 0, 5, 2) + ((5832) * mn(p, 2, 1, 3, 1, 0, 5, 0) + (486) * mn(p, 2, 1, 3, 0, 0, 6, 3)))))) + (((((-1458) * mn(p, 2, 1, 3, 0, 0, 6, 1) + (243) * mn(p, 2, 0, 4, 5, 1, 0, 0)) + ((-486) * mn(p, 2, 0, 4, 4, 1, 1, 1) + (729) * mn(p, 2, 0, 4, 3, 1, 2, 2))) + (((-1458) * mn(p, 2, 0, 4, 3, 1, 2, 0) + (-486) * mn(p, 2, 0, 4, 2, 1, 3, 3)) + ((3402) * mn(p, 2, 0, 4, 2, 1, 3, 1) + ((243) * mn(p, 2, 0, 4, 1, 1, 4, 4) + (-6318) * mn(p, 2, 0, 4, 1, 1, 4, 2))))) + ((((13851) * mn(p, 2, 0, 4, 1, 1, 4, 0) + (972) * mn(p, 2, 0, 4, 0, 1, 5, 3)) + ((-2916) * mn(p, 2, 0, 4, 0, 1, 5, 1) + (3) * mn(p, 1, 5, 0, 2, 4, 0, 0))) + (((-3) * mn(p, 1, 5, 0, 0, 4, 2, 0) + (-6) * mn(p, 1, 4, 1, 0, 5, 1, 0)) + ((-54) * mn(p, 1, 3, 2, 4, 2, 0, 0) + ((54) * mn(p, 1, 3, 2, 3, 2, 1, 1) + (-54) * mn(p, 1, 3, 2, 2, 2, 2, 2))))))) + ((((((216) * mn(p, 1, 3, 2, 2, 2, 2, 0) + (-54) * mn(p, 1, 3, 2, 1, 2, 3, 1)) + ((54) * mn(p, 1, 3, 2, 0, 2, 4, 2) + (-162) * mn(p, 1, 3, 2, 0, 2, 4, 0))) + (((108) * mn(p, 1, 2, 3, 2, 3, 1, 0) + (-324) * mn(p, 1, 2, 3, 2, 1, 3, 1)) + ((-108) * mn(p, 1, 2, 3, 1, 3, 2, 1) + ((810) * mn(p, 1, 2, 3, 1, 1, 4, 2) + (-1944) * mn(p, 1, 2, 3, 1, 1, 4, 0))))) + ((((108) * mn(p, 1, 2, 3, 0, 3, 3, 2) + (-324) * mn(p, 1, 2, 3, 0, 3, 3, 0)) + ((-162) * mn(p, 1, 2, 3, 0, 1, 5, 3) + (486) * mn(p, 1, 2, 3, 0, 1, 5, 1))) + (((243) * mn(p, 1, 1, 4, 6, 0, 0, 0) + (-486) * mn(p, 1, 1, 4, 5, 0, 1, 1)) + ((729) * mn(p, 1, 1, 4, 4, 0, 2, 2) + ((-1701) * mn(p, 1, 1, 4, 4, 0, 2, 0) + (-486) * mn(p, 1, 1, 4, 3, 0, 3, 3)))))) + (((((3888) * mn(p, 1, 1, 4, 3, 0, 3, 1) + (-324) * mn(p, 1, 1, 4, 2, 2, 2, 1)) + ((243) * mn(p, 1, 1, 4, 2, 0, 4, 4) + (-8019) * mn(p, 1, 1, 4, 2, 0, 4, 2))) + (((15309) * mn(p, 1, 1, 4, 2, 0, 4, 0) + (810) * mn(p, 1, 1, 4, 1, 2, 3, 2)) + ((-1944) * mn(p, 1, 1, 4, 1, 2, 3, 0) + ((3888) * mn(p, 1, 1, 4, 1, 0, 5, 3) + (-10206) * mn(p, 1, 1, 4, 1, 0, 5, 1))))) + ((((-162) * mn(p, 1, 1, 4, 0, 2, 4, 3) + (486) * mn(p, 1, 1, 4, 0, 2, 4, 1)) + ((-729) * mn(p, 1, 1, 4, 0, 0, 6, 4) + (2916) * mn(p, 1, 1, 4, 0, 0, 6, 2))) + (((-2187) * mn(p, 1, 1, 4, 0, 0, 6, 0) + (-486) * mn(p, 1, 0, 5, 4, 1, 1, 0)) + ((1944) * mn(p, 1, 0, 5, 3, 1, 2, 1) + ((-4860) * mn(p, 1, 0, 5, 2, 1, 3, 2) + (8748) * mn(p, 1, 0, 5, 2, 1, 3, 0)))))))) + (((((((3888) * mn(p, 1, 0, 5, 1, 1, 4, 3) + (-10206) * mn(p, 1, 0, 5, 1, 1, 4, 1)) + ((-972) * mn(p, 1, 0, 5, 0, 1, 5, 4) + (4374) * mn(p, 1, 0, 5, 0, 1, 5, 2))) + (((-4374) * mn(p, 1, 0, 5, 0, 1, 5, 0) + (1) * mn(p, 0, 6, 0, 0, 5, 1, 0)) + ((-6) * mn(p, 0, 5, 1, 1, 4, 1, 0) + ((1) * mn(p, 0, 5, 1, 0, 6, 0, 0) + (3) * mn(p, 0, 5, 1, 0, 4, 2, 1))))) + ((((-18) * mn(p, 0, 4, 2, 2, 3, 1, 0) + (-3) * mn(p, 0, 4, 2, 1, 5, 0, 0)) + ((18) * mn(p, 0, 4, 2, 1, 3, 2, 1) + (3) * mn(p, 0, 4, 2, 0, 5, 1, 1))) + (((-18) * mn(p, 0, 4, 2, 0, 3, 3, 2) + (54) * mn(p, 0, 4, 2, 0, 3, 3, 0)) + ((108) * mn(p, 0, 3, 3, 3, 2, 1, 0) + ((-18) * mn(p, 0, 3, 3, 2, 4, 0, 0) + (-162) * mn(p, 0, 3, 3, 2, 2, 2, 1)))))) + (((((18) * mn(p, 0, 3, 3, 1, 4, 1, 1) + (162) * mn(p, 0, 3, 3, 1, 2, 3, 2)) + ((-324) * mn(p, 0, 3, 3, 1, 2, 3, 0) + (-18) * mn(p, 0, 3, 3, 0, 4, 2, 2))) + (((54) * mn(p, 0, 3, 3, 0, 4, 2, 0) + (-54) * mn(p, 0, 3, 3, 0, 2, 4, 3)) + ((162) * mn(p, 0, 3, 3, 0, 2, 4, 1) + ((81) * mn(p, 0, 2, 4, 4, 1, 1, 0) + (54) * mn(p, 0, 2, 4, 3, 3, 0, 0))))) + ((((-162) * mn(p, 0, 2, 4, 3, 1, 2, 1) + (-108) * mn(p, 0, 2, 4, 2, 3, 1, 1)) + ((243) * mn(p, 0, 2, 4, 2, 1, 3, 2) + (-486) * mn(p, 0, 2, 4, 2, 1, 3, 0))) + (((108) * mn(p, 0, 2, 4, 1, 3, 2, 2) + (-162) * mn(p, 0, 2, 4, 1, 3, 2, 0)) + ((-162) * mn(p, 0, 2, 4, 1, 1, 4, 3) + ((486) * mn(p, 0, 2, 4, 1, 1, 4, 1) + (-54) * mn(p, 0, 2, 4, 0, 3, 3, 3))))))) + ((((((162) * mn(p, 0, 2, 4, 0, 3, 3, 1) + (81) * mn(p, 0, 2, 4, 0, 1, 5, 4)) + ((-486) * mn(p, 0, 2, 4, 0, 1, 5, 2) + (729) * mn(p, 0, 2, 4, 0, 1, 5, 0))) + (((-486) * mn(p, 0, 1, 5, 5, 0, 1, 0) + (81) * mn(p, 0, 1, 5, 4, 2, 0, 0)) + ((1215) * mn(p, 0, 1, 5, 4, 0, 2, 1) + ((-162) * mn(p, 0, 1, 5, 3, 2, 1, 1) + (-1944) * mn(p, 0, 1, 5, 3, 0, 3, 2))))) + ((((2916) * mn(p, 0, 1, 5, 3, 0, 3, 0) + (243) * mn(p, 0, 1, 5, 2, 2, 2, 2)) + ((-486) * mn(p, 0, 1, 5, 2, 2, 2, 0) + (1701) * mn(p, 0, 1, 5, 2, 0, 4, 3))) + (((-4374) * mn(p, 0, 1, 5, 2, 0, 4, 1) + (-162) * mn(p, 0, 1, 5, 1, 2, 3, 3)) + ((486) * mn(p, 0, 1, 5, 1, 2, 3, 1) + ((-972) * mn(p, 0, 1, 5, 1, 0, 5, 4) + (4374) * mn(p, 0, 1, 5, 1, 0, 5, 2)))))) + (((((-4374) * mn(p, 0, 1, 5, 1, 0, 5, 0) + (81) * mn(p, 0, 1, 5, 0, 2, 4, 4)) + ((-486) * mn(p, 0, 1, 5, 0, 2, 4, 2) + (729) * mn(p, 0, 1, 5, 0, 2, 4, 0))) + (((243) * mn(p, 0, 1, 5, 0, 0, 6, 5) + (-1458) * mn(p, 0, 1, 5, 0, 0, 6, 3)) + ((2187) * mn(p, 0, 1, 5, 0, 0, 6, 1) + ((-243) * mn(p, 0, 0, 6, 5, 1, 0, 0) + (729) * mn(p, 0, 0, 6, 4, 1, 1, 1))))) + ((((-1215) * mn(p, 0, 0, 6, 3, 1, 2, 2) + (1458) * mn(p, 0, 0, 6, 3, 1, 2, 0)) + ((1215) * mn(p, 0, 0, 6, 2, 1, 3, 3) + ((-2916) * mn(p, 0, 0, 6, 2, 1, 3, 1) + (-729) * mn(p, 0, 0, 6, 1, 1, 4, 4)))) + (((2916) * mn(p, 0, 0, 6, 1, 1, 4, 2) + (-2187) * mn(p, 0, 0, 6, 1, 1, 4, 0)) + ((243) * mn(p, 0, 0, 6, 0, 1, 5, 5) + ((-1458) * mn(p, 0, 0, 6, 0, 1, 5, 3) + (2187) * mn(p, 0, 0, 6, 0, 1, 5, 1))))))))),
{
    let t0 = (-324) * mn(p, 1, 0, 3, 2, 0, 2, 1);
    let t1 = (810) * mn(p, 1, 0, 3, 1, 0, 3, 2);
    let t2 = (-1944) * mn(p, 1, 0, 3, 1, 0, 3, 0);
    let t3 = (-162) * mn(p, 1, 0, 3, 0, 0, 4, 3);
    let t4 = (486) * mn(p, 1, 0, 3, 0, 0, 4, 1);
    let t5 = (1) * mn(p, 0, 4, 0, 0, 4, 0, 0);
    let t6 = (-18) * mn(p, 0, 2, 2, 2, 2, 0, 0);
    let t7 = (18) * mn(p, 0, 2, 2, 1, 2, 1, 1);
    let t8 = (-18) * mn(p, 0, 2, 2, 0, 2, 2, 2);
    let t9 = (54) * mn(p, 0, 2, 2, 0, 2, 2, 0);
    let t10 = (81) * mn(p, 0, 0, 4, 4, 0, 0, 0);
    let t11 = (-162) * mn(p, 0, 0, 4, 3, 0, 1, 1);
    let t12 = (243) * mn(p, 0, 0, 4, 2, 0, 2, 2);
    let t13 = (-486) * mn(p, 0, 0, 4, 2, 0, 2, 0);
    let t14 = (-162) * mn(p, 0, 0, 4, 1, 0, 3, 3);
    let t15 = (486) * mn(p, 0, 0, 4, 1, 0, 3, 1);
    let t16 = (81) * mn(p, 0, 0, 4, 0, 0, 4, 4);
    let t17 = (-486) * mn(p, 0, 0, 4, 0, 0, 4, 2);
    let t18 = (729) * mn(p, 0, 0, 4, 0, 0, 4, 0);
    let s0 = (3) * mn(p, 2, 0, 0, 1, 1, 0, 0);
    let s1 = (3) * mn(p, 1, 1, 0, 2, 0, 0, 0);
    let s2 = (-3) * mn(p, 1, 1, 0, 0, 0, 2, 0);
    let s3 = (-6) * mn(p, 1, 0, 1, 0, 1, 1, 0);
    let s4 = (1) * mn(p, 0, 2, 0, 0, 1, 1, 0);
    let s5 = (-6) * mn(p, 0, 1, 1, 1, 0, 1, 0);
    let s6 = (1) * mn(p, 0, 1, 1, 0, 2, 0, 0);
    let s7 = (3) * mn(p, 0, 1, 1, 0, 0, 2, 1);
    let s8 = (-3) * mn(p, 0, 0, 2, 1, 1, 0, 0);
    let s9 = (3) * mn(p, 0, 0, 2, 0, 1, 1, 1);
    let pp0 = t0;
    let pp1 = pp0 + t1;
    let pp2 = pp1 + t2;
    let pp3 = pp2 + t3;
    let pp4 = pp3 + t4;
    let pp5 = pp4 + t5;
    let pp6 = pp5 + t6;
    let pp7 = pp6 + t7;
    let pp8 = pp7 + t8;
    let pp9 = pp8 + t9;
    let pp10 = pp9 + t10;
    let pp11 = pp10 + t11;
    let pp12 = pp11 + t12;
    let pp13 = pp12 + t13;
    let pp14 = pp13 + t14;
    let pp15 = pp14 + t15;
    let pp16 = pp15 + t16;
    let pp17 = pp16 + t17;
    let pp18 = pp17 + t18;
    let qq0 = s0;
    let qq1 = qq0 + s1;
    let qq2 = qq1 + s2;
    let qq3 = qq2 + s3;
    let qq4 = qq3 + s4;
    let qq5 = qq4 + s5;
    let qq6 = qq5 + s6;
    let qq7 = qq6 + s7;
    let qq8 = qq7 + s8;
    let qq9 = qq8 + s9;
    let q = qq9;
    lemma_mul_is_distributive_add_other_way(q, pp0, t1);
    lemma_mul_is_distributive_add_other_way(q, pp1, t2);
    lemma_mul_is_distributive_add_other_way(q, pp2, t3);
    lemma_mul_is_distributive_add_other_way(q, pp3, t4);
    lemma_mul_is_distributive_add_other_way(q, pp4, t5);
    lemma_mul_is_distributive_add_other_way(q, pp5, t6);
    lemma_mul_is_distributive_add_other_way(q, pp6, t7);
    lemma_mul_is_distributive_add_other_way(q, pp7, t8);
    lemma_mul_is_distributive_add_other_way(q, pp8, t9);
    lemma_mul_is_distributive_add_other_way(q, pp9, t10);
    lemma_mul_is_distributive_add_other_way(q, pp10, t11);
    lemma_mul_is_distributive_add_other_way(q, pp11, t12);
    lemma_mul_is_distributive_add_other_way(q, pp12, t13);
    lemma_mul_is_distributive_add_other_way(q, pp13, t14);
    lemma_mul_is_distributive_add_other_way(q, pp14, t15);
    lemma_mul_is_distributive_add_other_way(q, pp15, t16);
    lemma_mul_is_distributive_add_other_way(q, pp16, t17);
    lemma_mul_is_distributive_add_other_way(q, pp17, t18);
    lemma_mul_is_distributive_add(t0, qq0, s1);
    lemma_mul_is_distributive_add(t0, qq1, s2);
    lemma_mul_is_distributive_add(t0, qq2, s3);
    lemma_mul_is_distributive_add(t0, qq3, s4);
    lemma_mul_is_distributive_add(t0, qq4, s5);
    lemma_mul_is_distributive_add(t0, qq5, s6);
    lemma_mul_is_distributive_add(t0, qq6, s7);
    lemma_mul_is_distributive_add(t0, qq7, s8);
    lemma_mul_is_distributive_add(t0, qq8, s9);
    lemma_mul_is_distributive_add(t1, qq0, s1);
    lemma_mul_is_distributive_add(t1, qq1, s2);
    lemma_mul_is_distributive_add(t1, qq2, s3);
    lemma_mul_is_distributive_add(t1, qq3, s4);
    lemma_mul_is_distributive_add(t1, qq4, s5);
    lemma_mul_is_distributive_add(t1, qq5, s6);
    lemma_mul_is_distributive_add(t1, qq6, s7);
    lemma_mul_is_distributive_add(t1, qq7, s8);
    lemma_mul_is_distributive_add(t1, qq8, s9);
    lemma_mul_is_distributive_add(t2, qq0, s1);
    lemma_mul_is_distributive_add(t2, qq1, s2);
    lemma_mul_is_distributive_add(t2, qq2, s3);
    lemma_mul_is_distributive_add(t2, qq3, s4);
    lemma_mul_is_distributive_add(t2, qq4, s5);
    lemma_mul_is_distributive_add(t2, qq5, s6);
    lemma_mul_is_distributive_add(t2, qq6, s7);
    lemma_mul_is_distributive_add(t2, qq7, s8);
    lemma_mul_is_distributive_add(t2, qq8, s9);
    lemma_mul_is_distributive_add(t3, qq0, s1);
    lemma_mul_is_distributive_add(t3, qq1, s2);
    lemma_mul_is_distributive_add(t3, qq2, s3);
    lemma_mul_is_distributive_add(t3, qq3, s4);
    lemma_mul_is_distributive_add(t3, qq4, s5);
    lemma_mul_is_distributive_add(t3, qq5, s6);
    lemma_mul_is_distributive_add(t3, qq6, s7);
    lemma_mul_is_distributive_add(t3, qq7, s8);
    lemma_mul_is_distributive_add(t3, qq8, s9);
    lemma_mul_is_distributive_add(t4, qq0, s1);
    lemma_mul_is_distributive_add(t4, qq1, s2);
    lemma_mul_is_distributive_add(t4, qq2, s3);
    lemma_mul_is_distributive_add(t4, qq3, s4);
    lemma_mul_is_distributive_add(t4, qq4, s5);
    lemma_mul_is_distributive_add(t4, qq5, s6);
    lemma_mul_is_distributive_add(t4, qq6, s7);
    lemma_mul_is_distributive_add(t4, qq7, s8);
    lemma_mul_is_distributive_add(t4, qq8, s9);
    lemma_mul_is_distributive_add(t5, qq0, s1);
    lemma_mul_is_distributive_add(t5, qq1, s2);
    lemma_mul_is_distributive_add(t5, qq2, s3);
    lemma_mul_is_distributive_add(t5, qq3, s4);
    lemma_mul_is_distributive_add(t5, qq4, s5);
    lemma_mul_is_distributive_add(t5, qq5, s6);
    lemma_mul_is_distributive_add(t5, qq6, s7);
    lemma_mul_is_distributive_add(t5, qq7, s8);
    lemma_mul_is_distributive_add(t5, qq8, s9);
    lemma_mul_is_distributive_add(t6, qq0, s1);
    lemma_mul_is_distributive_add(t6, qq1, s2);
    lemma_mul_is_distributive_add(t6, qq2, s3);
    lemma_mul_is_distributive_add(t6, qq3, s4);
    lemma_mul_is_distributive_add(t6, qq4, s5);
    lemma_mul_is_distributive_add(t6, qq5, s6);
    lemma_mul_is_distributive_add(t6, qq6, s7);
    lemma_mul_is_distributive_add(t6, qq7, s8);
    lemma_mul_is_distributive_add(t6, qq8, s9);
    lemma_mul_is_distributive_add(t7, qq0, s1);
    lemma_mul_is_distributive_add(t7, qq1, s2);
    lemma_mul_is_distributive_add(t7, qq2, s3);
    lemma_mul_is_distributive_add(t7, qq3, s4);
    lemma_mul_is_distributive_add(t7, qq4, s5);
    lemma_mul_is_distributive_add(t7, qq5, s6);
    lemma_mul_is_distributive_add(t7, qq6, s7);
    lemma_mul_is_distributive_add(t7, qq7, s8);
    lemma_mul_is_distributive_add(t7, qq8, s9);
    lemma_mul_is_distributive_add(t8, qq0, s1);
    lemma_mul_is_distributive_add(t8, qq1, s2);
    lemma_mul_is_distributive_add(t8, qq2, s3);
    lemma_mul_is_distributive_add(t8, qq3, s4);
    lemma_mul_is_distributive_add(t8, qq4, s5);
    lemma_mul_is_distributive_add(t8, qq5, s6);
    lemma_mul_is_distributive_add(t8, qq6, s7);
    lemma_mul_is_distributive_add(t8, qq7, s8);
    lemma_mul_is_distributive_add(t8, qq8, s9);
    lemma_mul_is_distributive_add(t9, qq0, s1);
    lemma_mul_is_distributive_add(t9, qq1, s2);
    lemma_mul_is_distributive_add(t9, qq2, s3);
    lemma_mul_is_distributive_add(t9, qq3, s4);
    lemma_mul_is_distributive_add(t9, qq4, s5);
    lemma_mul_is_distributive_add(t9, qq5, s6);
    lemma_mul_is_distributive_add(t9, qq6, s7);
    lemma_mul_is_distributive_add(t9, qq7, s8);
    lemma_mul_is_distributive_add(t9, qq8, s9);
    lemma_mul_is_distributive_add(t10, qq0, s1);
    lemma_mul_is_distributive_add(t10, qq1, s2);
    lemma_mul_is_distributive_add(t10, qq2, s3);
    lemma_mul_is_distributive_add(t10, qq3, s4);
    lemma_mul_is_distributive_add(t10, qq4, s5);
    lemma_mul_is_distributive_add(t10, qq5, s6);
    lemma_mul_is_distributive_add(t10, qq6, s7);
    lemma_mul_is_distributive_add(t10, qq7, s8);
    lemma_mul_is_distributive_add(t10, qq8, s9);
    lemma_mul_is_distributive_add(t11, qq0, s1);
    lemma_mul_is_distributive_add(t11, qq1, s2);
    lemma_mul_is_distributive_add(t11, qq2, s3);
    lemma_mul_is_distributive_add(t11, qq3, s4);
    lemma_mul_is_distributive_add(t11, qq4, s5);
    lemma_mul_is_distributive_add(t11, qq5, s6);
    lemma_mul_is_distributive_add(t11, qq6, s7);
    lemma_mul_is_distributive_add(t11, qq7, s8);
    lemma_mul_is_distributive_add(t11, qq8, s9);
    lemma_mul_is_distributive_add(t12, qq0, s1);
    lemma_mul_is_distributive_add(t12, qq1, s2);
    lemma_mul_is_distributive_add(t12, qq2, s3);
    lemma_mul_is_distributive_add(t12, qq3, s4);
    lemma_mul_is_distributive_add(t12, qq4, s5);
    lemma_mul_is_distributive_add(t12, qq5, s6);
    lemma_mul_is_distributive_add(t12, qq6, s7);
    lemma_mul_is_distributive_add(t12, qq7, s8);
    lemma_mul_is_distributive_add(t12, qq8, s9);
    lemma_mul_is_distributive_add(t13, qq0, s1);
    lemma_mul_is_distributive_add(t13, qq1, s2);
    lemma_mul_is_distributive_add(t13, qq2, s3);
    lemma_mul_is_distributive_add(t13, qq3, s4);
    lemma_mul_is_distributive_add(t13, qq4, s5);
    lemma_mul_is_distributive_add(t13, qq5, s6);
    lemma_mul_is_distributive_add(t13, qq6, s7);
    lemma_mul_is_distributive_add(t13, qq7, s8);
    lemma_mul_is_distributive_add(t13, qq8, s9);
    lemma_mul_is_distributive_add(t14, qq0, s1);
    lemma_mul_is_distributive_add(t14, qq1, s2);
    lemma_mul_is_distributive_add(t14, qq2, s3);
    lemma_mul_is_distributive_add(t14, qq3, s4);
    lemma_mul_is_distributive_add(t14, qq4, s5);
    lemma_mul_is_distributive_add(t14, qq5, s6);
    lemma_mul_is_distributive_add(t14, qq6, s7);
    lemma_mul_is_distributive_add(t14, qq7, s8);
    lemma_mul_is_distributive_add(t14, qq8, s9);
    lemma_mul_is_distributive_add(t15, qq0, s1);
    lemma_mul_is_distributive_add(t15, qq1, s2);
    lemma_mul_is_distributive_add(t15, qq2, s3);
    lemma_mul_is_distributive_add(t15, qq3, s4);
    lemma_mul_is_distributive_add(t15, qq4, s5);
    lemma_mul_is_distributive_add(t15, qq5, s6);
    lemma_mul_is_distributive_add(t15, qq6, s7);
    lemma_mul_is_distributive_add(t15, qq7, s8);
    lemma_mul_is_distributive_add(t15, qq8, s9);
    lemma_mul_is_distributive_add(t16, qq0, s1);
    lemma_mul_is_distributive_add(t16, qq1, s2);
    lemma_mul_is_distributive_add(t16, qq2, s3);
    lemma_mul_is_distributive_add(t16, qq3, s4);
    lemma_mul_is_distributive_add(t16, qq4, s5);
    lemma_mul_is_distributive_add(t16, qq5, s6);
    lemma_mul_is_distributive_add(t16, qq6, s7);
    lemma_mul_is_distributive_add(t16, qq7, s8);
    lemma_mul_is_distributive_add(t16, qq8, s9);
    lemma_mul_is_distributive_add(t17, qq0, s1);
    lemma_mul_is_distributive_add(t17, qq1, s2);
    lemma_mul_is_distributive_add(t17, qq2, s3);
    lemma_mul_is_distributive_add(t17, qq3, s4);
    lemma_mul_is_distributive_add(t17, qq4, s5);
    lemma_mul_is_distributive_add(t17, qq5, s6);
    lemma_mul_is_distributive_add(t17, qq6, s7);
    lemma_mul_is_distributive_add(t17, qq7, s8);
    lemma_mul_is_distributive_add(t17, qq8, s9);
    lemma_mul_is_distributive_add(t18, qq0, s1);
    lemma_mul_is_distributive_add(t18, qq1, s2);
    lemma_mul_is_distributive_add(t18, qq2, s3);
    lemma_mul_is_distributive_add(t18, qq3, s4);
    lemma_mul_is_distributive_add(t18, qq4, s5);
    lemma_mul_is_distributive_add(t18, qq5, s6);
    lemma_mul_is_distributive_add(t18, qq6, s7);
    lemma_mul_is_distributive_add(t18, qq7, s8);
    lemma_mul_is_distributive_add(t18, qq8, s9);
    lemma_tm(p, -324, 1, 0, 3, 2, 0, 2, 1, 3, 2, 0, 0, 1, 1, 0, 0);
    assert(t0 * s0 == (-972) * mn(p, 3, 0, 3, 3, 1, 2, 1));
    lemma_tm(p, -324, 1, 0, 3, 2, 0, 2, 1, 3, 1, 1, 0, 2, 0, 0, 0);
    assert(t0 * s1 == (-972) * mn(p, 2, 1, 3, 4, 0, 2, 1));
    lemma_tm(p, -324, 1, 0, 3, 2, 0, 2, 1, -3, 1, 1, 0, 0, 0, 2, 0);
    assert(t0 * s2 == (972) * mn(p, 2, 1, 3, 2, 0, 4, 1));
    lemma_tm(p, -324, 1, 0, 3, 2, 0, 2, 1, -6, 1, 0, 1, 0, 1, 1, 0);
    assert(t0 * s3 == (1944) * mn(p, 2, 0, 4, 2, 1, 3, 1));
    lemma_tm(p, -324, 1, 0, 3, 2, 0, 2, 1, 1, 0, 2, 0, 0, 1, 1, 0);
    assert(t0 * s4 == (-324) * mn(p, 1, 2, 3, 2, 1, 3, 1));
    lemma_tm(p, -324, 1, 0, 3, 2, 0, 2, 1, -6, 0, 1, 1, 1, 0, 1, 0);
    assert(t0 * s5 == (1944) * mn(p, 1, 1, 4, 3, 0, 3, 1));
    lemma_tm(p, -324, 1, 0, 3, 2, 0, 2, 1, 1, 0, 1, 1, 0, 2, 0, 0);
    assert(t0 * s6 == (-324) * mn(p, 1, 1, 4, 2, 2, 2, 1));
    lemma_tm(p, -324, 1, 0, 3, 2, 0, 2, 1, 3, 0, 1, 1, 0, 0, 2, 1);
    assert(t0 * s7 == (-972) * mn(p, 1, 1, 4, 2, 0, 4, 2));
    lemma_tm(p, -324, 1, 0, 3, 2, 0, 2, 1, -3, 0, 0, 2, 1, 1, 0, 0);
    assert(t0 * s8 == (972) * mn(p, 1, 0, 5, 3, 1, 2, 1));
    lemma_tm(p, -324, 1, 0, 3, 2, 0, 2, 1, 3, 0, 0, 2, 0, 1, 1, 1);
    assert(t0 * s9 == (-972) * mn(p, 1, 0, 5, 2, 1, 3, 2));
    assert(t0 * q == (-972) * mn(p, 3, 0, 3, 3, 1, 2, 1) + (-972) * mn(p, 2, 1, 3, 4, 0, 2, 1) + (972) * mn(p, 2, 1, 3, 2, 0, 4, 1) + (1944) * mn(p, 2, 0, 4, 2, 1, 3, 1) + (-324) * mn(p, 1, 2, 3, 2, 1, 3, 1) + (1944) * mn(p, 1, 1, 4, 3, 0, 3, 1) + (-324) * mn(p, 1, 1, 4, 2, 2, 2, 1) + (-972) * mn(p, 1, 1, 4, 2, 0, 4, 2) + (972) * mn(p, 1, 0, 5, 3, 1, 2, 1) + (-972) * mn(p, 1, 0, 5, 2, 1, 3, 2));
    lemma_tm(p, 810, 1, 0, 3, 1, 0, 3, 2, 3, 2, 0, 0, 1, 1, 0, 0);
    assert(t1 * s0 == (2430) * mn(p, 3, 0, 3, 2, 1, 3, 2));
    lemma_tm(p, 810, 1, 0, 3, 1, 0, 3, 2, 3, 1, 1, 0, 2, 0, 0, 0);
    assert(t1 * s1 == (2430) * mn(p, 2, 1, 3, 3, 0, 3, 2));
    lemma_tm(p, 810, 1, 0, 3, 1, 0, 3, 2, -3, 1, 1, 0, 0, 0, 2, 0);
    assert(t1 * s2 == (-2430) * mn(p, 2, 1, 3, 1, 0, 5, 2));
    lemma_tm(p, 810, 1, 0, 3, 1, 0, 3, 2, -6, 1, 0, 1, 0, 1, 1, 0);
    assert(t1 * s3 == (-4860) * mn(p, 2, 0, 4, 1, 1, 4, 2));
    lemma_tm(p, 810, 1, 0, 3, 1, 0, 3, 2, 1, 0, 2, 0, 0, 1, 1, 0);
    assert(t1 * s4 == (810) * mn(p, 1, 2, 3, 1, 1, 4, 2));
    lemma_tm(p, 810, 1, 0, 3, 1, 0, 3, 2, -6, 0, 1, 1, 1, 0, 1, 0);
    assert(t1 * s5 == (-4860) * mn(p, 1, 1, 4, 2, 0, 4, 2));
    lemma_tm(p, 810, 1, 0, 3, 1, 0, 3, 2, 1, 0, 1, 1, 0, 2, 0, 0);
    assert(t1 * s6 == (810) * mn(p, 1, 1, 4, 1, 2, 3, 2));
    lemma_tm(p, 810, 1, 0, 3, 1, 0, 3, 2, 3, 0, 1, 1, 0, 0, 2, 1);
    assert(t1 * s7 == (2430) * mn(p, 1, 1, 4, 1, 0, 5, 3));
    lemma_tm(p, 810, 1, 0, 3, 1, 0, 3, 2, -3, 0, 0, 2, 1, 1, 0, 0);
    assert(t1 * s8 == (-2430) * mn(p, 1, 0, 5, 2, 1, 3, 2));
    lemma_tm(p, 810, 1, 0, 3, 1, 0, 3, 2, 3, 0, 0, 2, 0, 1, 1, 1);
    assert(t1 * s9 == (2430) * mn(p, 1, 0, 5, 1, 1, 4, 3));
    assert(t1 * q == (2430) * mn(p, 3, 0, 3, 2, 1, 3, 2) + (2430) * mn(p, 2, 1, 3, 3, 0, 3, 2) + (-2430) * mn(p, 2, 1, 3, 1, 0, 5, 2) + (-4860) * mn(p, 2, 0, 4, 1, 1, 4, 2) + (810) * mn(p, 1, 2, 3, 1, 1, 4, 2) + (-4860) * mn(p, 1, 1, 4, 2, 0, 4, 2) + (810) * mn(p, 1, 1, 4, 1, 2, 3, 2) + (2430) * mn(p, 1, 1, 4, 1, 0, 5, 3) + (-2430) * mn(p, 1, 0, 5, 2, 1, 3, 2) + (2430) * mn(p, 1, 0, 5, 1, 1, 4, 3));
    lemma_tm(p, -1944, 1, 0, 3, 1, 0, 3, 0, 3, 2, 0, 0, 1, 1, 0, 0);
    assert(t2 * s0 == (-5832) * mn(p, 3, 0, 3, 2, 1, 3, 0));
    lemma_tm(p, -1944, 1, 0, 3, 1, 0, 3, 0, 3, 1, 1, 0, 2, 0, 0, 0);
    assert(t2 * s1 == (-5832) * mn(p, 2, 1, 3, 3, 0, 3, 0));
    lemma_tm(p, -1944, 1, 0, 3, 1, 0, 3, 0, -3, 1, 1, 0, 0, 0, 2, 0);
    assert(t2 * s2 == (5832) * mn(p, 2, 1, 3, 1, 0, 5, 0));
    lemma_tm(p, -1944, 1, 0, 3, 1, 0, 3, 0, -6, 1, 0, 1, 0, 1, 1, 0);
    assert(t2 * s3 == (11664) * mn(p, 2, 0, 4, 1, 1, 4, 0));
    lemma_tm(p, -1944, 1, 0, 3, 1, 0, 3, 0, 1, 0, 2, 0, 0, 1, 1, 0);
    assert(t2 * s4 == (-1944) * mn(p, 1, 2, 3, 1, 1, 4, 0));
    lemma_tm(p, -1944, 1, 0, 3, 1, 0, 3, 0, -6, 0, 1, 1, 1, 0, 1, 0);
    assert(t2 * s5 == (11664) * mn(p, 1, 1, 4, 2, 0, 4, 0));
    lemma_tm(p, -1944, 1, 0, 3, 1, 0, 3, 0, 1, 0, 1, 1, 0, 2, 0, 0);
    assert(t2 * s6 == (-1944) * mn(p, 1, 1, 4, 1, 2, 3, 0));
    lemma_tm(p, -1944, 1, 0, 3, 1, 0, 3, 0, 3, 0, 1, 1, 0, 0, 2, 1);
    assert(t2 * s7 == (-5832) * mn(p, 1, 1, 4, 1, 0, 5, 1));
    lemma_tm(p, -1944, 1, 0, 3, 1, 0, 3, 0, -3, 0, 0, 2, 1, 1, 0, 0);
    assert(t2 * s8 == (5832) * mn(p, 1, 0, 5, 2, 1, 3, 0));
    lemma_tm(p, -1944, 1, 0, 3, 1, 0, 3, 0, 3, 0, 0, 2, 0, 1, 1, 1);
    assert(t2 * s9 == (-5832) * mn(p, 1, 0, 5, 1, 1, 4, 1));
    assert(t2 * q == (-5832) * mn(p, 3, 0, 3, 2, 1, 3, 0) + (-5832) * mn(p, 2, 1, 3, 3, 0, 3, 0) + (5832) * mn(p, 2, 1, 3, 1, 0, 5, 0) + (11664) * mn(p, 2, 0, 4, 1, 1, 4, 0) + (-1944) * mn(p, 1, 2, 3, 1, 1, 4, 0) + (11664) * mn(p, 1, 1, 4, 2, 0, 4, 0) + (-1944) * mn(p, 1, 1, 4, 1, 2, 3, 0) + (-5832) * mn(p, 1, 1, 4, 1, 0, 5, 1) + (5832) * mn(p, 1, 0, 5, 2, 1, 3, 0) + (-5832) * mn(p, 1, 0, 5, 1, 1, 4, 1));
    lemma_tm(p, -162, 1, 0, 3, 0, 0, 4, 3, 3, 2, 0, 0, 1, 1, 0, 0);
    assert(t3 * s0 == (-486) * mn(p, 3, 0, 3, 1, 1, 4, 3));
    lemma_tm(p, -162, 1, 0, 3, 0, 0, 4, 3, 3, 1, 1, 0, 2, 0, 0, 0);
    assert(t3 * s1 == (-486) * mn(p, 2, 1, 3, 2, 0, 4, 3));
    lemma_tm(p, -162, 1, 0, 3, 0, 0, 4, 3, -3, 1, 1, 0, 0, 0, 2, 0);
    assert(t3 * s2 == (486) * mn(p, 2, 1, 3, 0, 0, 6, 3));
    lemma_tm(p, -162, 1, 0, 3, 0, 0, 4, 3, -6, 1, 0, 1, 0, 1, 1, 0);
    assert(t3 * s3 == (972) * mn(p, 2, 0, 4, 0, 1, 5, 3));
    lemma_tm(p, -162, 1, 0, 3, 0, 0, 4, 3, 1, 0, 2, 0, 0, 1, 1, 0);
    assert(t3 * s4 == (-162) * mn(p, 1, 2, 3, 0, 1, 5, 3));
    lemma_tm(p, -162, 1, 0, 3, 0, 0, 4, 3, -6, 0, 1, 1, 1, 0, 1, 0);
    assert(t3 * s5 == (972) * mn(p, 1, 1, 4, 1, 0, 5, 3));
    lemma_tm(p, -162, 1, 0, 3, 0, 0, 4, 3, 1, 0, 1, 1, 0, 2, 0, 0);
    assert(t3 * s6 == (-162) * mn(p, 1, 1, 4, 0, 2, 4, 3));
    lemma_tm(p, -162, 1, 0, 3, 0, 0, 4, 3, 3, 0, 1, 1, 0, 0, 2, 1);
    assert(t3 * s7 == (-486) * mn(p, 1, 1, 4, 0, 0, 6, 4));
    lemma_tm(p, -162, 1, 0, 3, 0, 0, 4, 3, -3, 0, 0, 2, 1, 1, 0, 0);
    assert(t3 * s8 == (486) * mn(p, 1, 0, 5, 1, 1, 4, 3));
    lemma_tm(p, -162, 1, 0, 3, 0, 0, 4, 3, 3, 0, 0, 2, 0, 1, 1, 1);
    assert(t3 * s9 == (-486) * mn(p, 1, 0, 5, 0, 1, 5, 4));
    assert(t3 * q == (-486) * mn(p, 3, 0, 3, 1, 1, 4, 3) + (-486) * mn(p, 2, 1, 3, 2, 0, 4, 3) + (486) * mn(p, 2, 1, 3, 0, 0, 6, 3) + (972) * mn(p, 2, 0, 4, 0, 1, 5, 3) + (-162) * mn(p, 1, 2, 3, 0, 1, 5, 3) + (972) * mn(p, 1, 1, 4, 1, 0, 5, 3) + (-162) * mn(p, 1, 1, 4, 0, 2, 4, 3) + (-486) * mn(p, 1, 1, 4, 0, 0, 6, 4) + (486) * mn(p, 1, 0, 5, 1, 1, 4, 3) + (-486) * mn(p, 1, 0, 5, 0, 1, 5, 4));
    lemma_tm(p, 486, 1, 0, 3, 0, 0, 4, 1, 3, 2, 0, 0, 1, 1, 0, 0);
    assert(t4 * s0 == (1458) * mn(p, 3, 0, 3, 1, 1, 4, 1));
    lemma_tm(p, 486, 1, 0, 3, 0, 0, 4, 1, 3, 1, 1, 0, 2, 0, 0, 0);
    assert(t4 * s1 == (1458) * mn(p, 2, 1, 3, 2, 0, 4, 1));
    lemma_tm(p, 486, 1, 0, 3, 0, 0, 4, 1, -3, 1, 1, 0, 0, 0, 2, 0);
    assert(t4 * s2 == (-1458) * mn(p, 2, 1, 3, 0, 0, 6, 1));
    lemma_tm(p, 486, 1, 0, 3, 0, 0, 4, 1, -6, 1, 0, 1, 0, 1, 1, 0);
    assert(t4 * s3 == (-2916) * mn(p, 2, 0, 4, 0, 1, 5, 1));
    lemma_tm(p, 486, 1, 0, 3, 0, 0, 4, 1, 1, 0, 2, 0, 0, 1, 1, 0);
    assert(t4 * s4 == (486) * mn(p, 1, 2, 3, 0, 1, 5, 1));
    lemma_tm(p, 486, 1, 0, 3, 0, 0, 4, 1, -6, 0, 1, 1, 1, 0, 1, 0);
    assert(t4 * s5 == (-2916) * mn(p, 1, 1, 4, 1, 0, 5, 1));
    lemma_tm(p, 486, 1, 0, 3, 0, 0, 4, 1, 1, 0, 1, 1, 0, 2, 0, 0);
    assert(t4 * s6 == (486) * mn(p, 1, 1, 4, 0, 2, 4, 1));
    lemma_tm(p, 486, 1, 0, 3, 0, 0, 4, 1, 3, 0, 1, 1, 0, 0, 2, 1);
    assert(t4 * s7 == (1458) * mn(p, 1, 1, 4, 0, 0, 6, 2));
    lemma_tm(p, 486, 1, 0, 3, 0, 0, 4, 1, -3, 0, 0, 2, 1, 1, 0, 0);
    assert(t4 * s8 == (-1458) * mn(p, 1, 0, 5, 1, 1, 4, 1));
    lemma_tm(p, 486, 1, 0, 3, 0, 0, 4, 1, 3, 0, 0, 2, 0, 1, 1, 1);
    assert(t4 * s9 == (1458) * mn(p, 1, 0, 5, 0, 1, 5, 2));
    assert(t4 * q == (1458) * mn(p, 3, 0, 3, 1, 1, 4, 1) + (1458) * mn(p, 2, 1, 3, 2, 0, 4, 1) + (-1458) * mn(p, 2, 1, 3, 0, 0, 6, 1) + (-2916) * mn(p, 2, 0, 4, 0, 1, 5, 1) + (486) * mn(p, 1, 2, 3, 0, 1, 5, 1) + (-2916) * mn(p, 1, 1, 4, 1, 0, 5, 1) + (486) * mn(p, 1, 1, 4, 0, 2, 4, 1) + (1458) * mn(p, 1, 1, 4, 0, 0, 6, 2) + (-1458) * mn(p, 1, 0, 5, 1, 1, 4, 1) + (1458) * mn(p, 1, 0, 5, 0, 1, 5, 2));
    lemma_tm(p, 1, 0, 4, 0, 0, 4, 0, 0, 3, 2, 0, 0, 1, 1, 0, 0);
    assert(t5 * s0 == (3) * mn(p, 2, 4, 0, 1, 5, 0, 0));
    lemma_tm(p, 1, 0, 4, 0, 0, 4, 0, 0, 3, 1, 1, 0, 2, 0, 0, 0);
    assert(t5 * s1 == (3) * mn(p, 1, 5, 0, 2, 4, 0, 0));
    lemma_tm(p, 1, 0, 4, 0, 0, 4, 0, 0, -3, 1, 1, 0, 0, 0, 2, 0);
    assert(t5 * s2 == (-3) * mn(p, 1, 5, 0, 0, 4, 2, 0));
    lemma_tm(p, 1, 0, 4, 0, 0, 4, 0, 0, -6, 1, 0, 1, 0, 1, 1, 0);
    assert(t5 * s3 == (-6) * mn(p, 1, 4, 1, 0, 5, 1, 0));
    lemma_tm(p, 1, 0, 4, 0, 0, 4, 0, 0, 1, 0, 2, 0, 0, 1, 1, 0);
    assert(t5 * s4 == (1) * mn(p, 0, 6, 0, 0, 5, 1, 0));
    lemma_tm(p, 1, 0, 4, 0, 0, 4, 0, 0, -6, 0, 1, 1, 1, 0, 1, 0);
    assert(t5 * s5 == (-6) * mn(p, 0, 5, 1, 1, 4, 1, 0));
    lemma_tm(p, 1, 0, 4, 0, 0, 4, 0, 0, 1, 0, 1, 1, 0, 2, 0, 0);
    assert(t5 * s6 == (1) * mn(p, 0, 5, 1, 0, 6, 0, 0));
    lemma_tm(p, 1, 0, 4, 0, 0, 4, 0, 0, 3, 0, 1, 1, 0, 0, 2, 1);
    assert(t5 * s7 == (3) * mn(p, 0, 5, 1, 0, 4, 2, 1));
    lemma_tm(p, 1, 0, 4, 0, 0, 4, 0, 0, -3, 0, 0, 2, 1, 1, 0, 0);
    assert(t5 * s8 == (-3) * mn(p, 0, 4, 2, 1, 5, 0, 0));
    lemma_tm(p, 1, 0, 4, 0, 0, 4, 0, 0, 3, 0, 0, 2, 0, 1, 1, 1);
    assert(t5 * s9 == (3) * mn(p, 0, 4, 2, 0, 5, 1, 1));
    assert(t5 * q == (3) * mn(p, 2, 4, 0, 1, 5, 0, 0) + (3) * mn(p, 1, 5, 0, 2, 4, 0, 0) + (-3) * mn(p, 1, 5, 0, 0, 4, 2, 0) + (-6) * mn(p, 1, 4, 1, 0, 5, 1, 0) + (1) * mn(p, 0, 6, 0, 0, 5, 1, 0) + (-6) * mn(p, 0, 5, 1, 1, 4, 1, 0) + (1) * mn(p, 0, 5, 1, 0, 6, 0, 0) + (3) * mn(p, 0, 5, 1, 0, 4, 2, 1) + (-3) * mn(p, 0, 4, 2, 1, 5, 0, 0) + (3) * mn(p, 0, 4, 2, 0, 5, 1, 1));
    lemma_tm(p, -18, 0, 2, 2, 2, 2, 0, 0, 3, 2, 0, 0, 1, 1, 0, 0);
    assert(t6 * s0 == (-54) * mn(p, 2, 2, 2, 3, 3, 0, 0));
    lemma_tm(p, -18, 0, 2, 2, 2, 2, 0, 0, 3, 1, 1, 0, 2, 0, 0, 0);
    assert(t6 * s1 == (-54) * mn(p, 1, 3, 2, 4, 2, 0, 0));
    lemma_tm(p, -18, 0, 2, 2, 2, 2, 0, 0, -3, 1, 1, 0, 0, 0, 2, 0);
    assert(t6 * s2 == (54) * mn(p, 1, 3, 2, 2, 2, 2, 0));
    lemma_tm(p, -18, 0, 2, 2, 2, 2, 0, 0, -6, 1, 0, 1, 0, 1, 1, 0);
    assert(t6 * s3 == (108) * mn(p, 1, 2, 3, 2, 3, 1, 0));
    lemma_tm(p, -18, 0, 2, 2, 2, 2, 0, 0, 1, 0, 2, 0, 0, 1, 1, 0);
    assert(t6 * s4 == (-18) * mn(p, 0, 4, 2, 2, 3, 1, 0));
    lemma_tm(p, -18, 0, 2, 2, 2, 2, 0, 0, -6, 0, 1, 1, 1, 0, 1, 0);
    assert(t6 * s5 == (108) * mn(p, 0, 3, 3, 3, 2, 1, 0));
    lemma_tm(p, -18, 0, 2, 2, 2, 2, 0, 0, 1, 0, 1, 1, 0, 2, 0, 0);
    assert(t6 * s6 == (-18) * mn(p, 0, 3, 3, 2, 4, 0, 0));
    lemma_tm(p, -18, 0, 2, 2, 2, 2, 0, 0, 3, 0, 1, 1, 0, 0, 2, 1);
    assert(t6 * s7 == (-54) * mn(p, 0, 3, 3, 2, 2, 2, 1));
    lemma_tm(p, -18, 0, 2, 2, 2, 2, 0, 0, -3, 0, 0, 2, 1, 1, 0, 0);
    assert(t6 * s8 == (54) * mn(p, 0, 2, 4, 3, 3, 0, 0));
    lemma_tm(p, -18, 0, 2, 2, 2, 2, 0, 0, 3, 0, 0, 2, 0, 1, 1, 1);
    assert(t6 * s9 == (-54) * mn(p, 0, 2, 4, 2, 3, 1, 1));
    assert(t6 * q == (-54) * mn(p, 2, 2, 2, 3, 3, 0, 0) + (-54) * mn(p, 1, 3, 2, 4, 2, 0, 0) + (54) * mn(p, 1, 3, 2, 2, 2, 2, 0) + (108) * mn(p, 1, 2, 3, 2, 3, 1, 0) + (-18) * mn(p, 0, 4, 2, 2, 3, 1, 0) + (108) * mn(p, 0, 3, 3, 3, 2, 1, 0) + (-18) * mn(p, 0, 3, 3, 2, 4, 0, 0) + (-54) * mn(p, 0, 3, 3, 2, 2, 2, 1) + (54) * mn(p, 0, 2, 4, 3, 3, 0, 0) + (-54) * mn(p, 0, 2, 4, 2, 3, 1, 1));
    lemma_tm(p, 18, 0, 2, 2, 1, 2, 1, 1, 3, 2, 0, 0, 1, 1, 0, 0);
    assert(t7 * s0 == (54) * mn(p, 2, 2, 2, 2, 3, 1, 1));
    lemma_tm(p, 18, 0, 2, 2, 1, 2, 1, 1, 3, 1, 1, 0, 2, 0, 0, 0);
    assert(t7 * s1 == (54) * mn(p, 1, 3, 2, 3, 2, 1, 1));
    lemma_tm(p, 18, 0, 2, 2, 1, 2, 1, 1, -3, 1, 1, 0, 0, 0, 2, 0);
    assert(t7 * s2 == (-54) * mn(p, 1, 3, 2, 1, 2, 3, 1));
    lemma_tm(p, 18, 0, 2, 2, 1, 2, 1, 1, -6, 1, 0, 1, 0, 1, 1, 0);
    assert(t7 * s3 == (-108) * mn(p, 1, 2, 3, 1, 3, 2, 1));
    lemma_tm(p, 18, 0, 2, 2, 1, 2, 1, 1, 1, 0, 2, 0, 0, 1, 1, 0);
    assert(t7 * s4 == (18) * mn(p, 0, 4, 2, 1, 3, 2, 1));
    lemma_tm(p, 18, 0, 2, 2, 1, 2, 1, 1, -6, 0, 1, 1, 1, 0, 1, 0);
    assert(t7 * s5 == (-108) * mn(p, 0, 3, 3, 2, 2, 2, 1));
    lemma_tm(p, 18, 0, 2, 2, 1, 2, 1, 1, 1, 0, 1, 1, 0, 2, 0, 0);
    assert(t7 * s6 == (18) * mn(p, 0, 3, 3, 1, 4, 1, 1));
    lemma_tm(p, 18, 0, 2, 2, 1, 2, 1, 1, 3, 0, 1, 1, 0, 0, 2, 1);
    assert(t7 * s7 == (54) * mn(p, 0, 3, 3, 1, 2, 3, 2));
    lemma_tm(p, 18, 0, 2, 2, 1, 2, 1, 1, -3, 0, 0, 2, 1, 1, 0, 0);
    assert(t7 * s8 == (-54) * mn(p, 0, 2, 4, 2, 3, 1, 1));
    lemma_tm(p, 18, 0, 2, 2, 1, 2, 1, 1, 3, 0, 0, 2, 0, 1, 1, 1);
    assert(t7 * s9 == (54) * mn(p, 0, 2, 4, 1, 3, 2, 2));
    assert(t7 * q == (54) * mn(p, 2, 2, 2, 2, 3, 1, 1) + (54) * mn(p, 1, 3, 2, 3, 2, 1, 1) + (-54) * mn(p, 1, 3, 2, 1, 2, 3, 1) + (-108) * mn(p, 1, 2, 3, 1, 3, 2, 1) + (18) * mn(p, 0, 4, 2, 1, 3, 2, 1) + (-108) * mn(p, 0, 3, 3, 2, 2, 2, 1) + (18) * mn(p, 0, 3, 3, 1, 4, 1, 1) + (54) * mn(p, 0, 3, 3, 1, 2, 3, 2) + (-54) * mn(p, 0, 2, 4, 2, 3, 1, 1) + (54) * mn(p, 0, 2, 4, 1, 3, 2, 2));
    lemma_tm(p, -18, 0, 2, 2, 0, 2, 2, 2, 3, 2, 0, 0, 1, 1, 0, 0);
    assert(t8 * s0 == (-54) * mn(p, 2, 2, 2, 1, 3, 2, 2));
    lemma_tm(p, -18, 0, 2, 2, 0, 2, 2, 2, 3, 1, 1, 0, 2, 0, 0, 0);
    assert(t8 * s1 == (-54) * mn(p, 1, 3, 2, 2, 2, 2, 2));
    lemma_tm(p, -18, 0, 2, 2, 0, 2, 2, 2, -3, 1, 1, 0, 0, 0, 2, 0);
    assert(t8 * s2 == (54) * mn(p, 1, 3, 2, 0, 2, 4, 2));
    lemma_tm(p, -18, 0, 2, 2, 0, 2, 2, 2, -6, 1, 0, 1, 0, 1, 1, 0);
    assert(t8 * s3 == (108) * mn(p, 1, 2, 3, 0, 3, 3, 2));
    lemma_tm(p, -18, 0, 2, 2, 0, 2, 2, 2, 1, 0, 2, 0, 0, 1, 1, 0);
    assert(t8 * s4 == (-18) * mn(p, 0, 4, 2, 0, 3, 3, 2));
    lemma_tm(p, -18, 0, 2, 2, 0, 2, 2, 2, -6, 0, 1, 1, 1, 0, 1, 0);
    assert(t8 * s5 == (108) * mn(p, 0, 3, 3, 1, 2, 3, 2));
    lemma_tm(p, -18, 0, 2, 2, 0, 2, 2, 2, 1, 0, 1, 1, 0, 2, 0, 0);
    assert(t8 * s6 == (-18) * mn(p, 0, 3, 3, 0, 4, 2, 2));
    lemma_tm(p, -18, 0, 2, 2, 0, 2, 2, 2, 3, 0, 1, 1, 0, 0, 2, 1);
    assert(t8 * s7 == (-54) * mn(p, 0, 3, 3, 0, 2, 4, 3));
    lemma_tm(p, -18, 0, 2, 2, 0, 2, 2, 2, -3, 0, 0, 2, 1, 1, 0, 0);
    assert(t8 * s8 == (54) * mn(p, 0, 2, 4, 1, 3, 2, 2));
    lemma_tm(p, -18, 0, 2, 2, 0, 2, 2, 2, 3, 0, 0, 2, 0, 1, 1, 1);
    assert(t8 * s9 == (-54) * mn(p, 0, 2, 4, 0, 3, 3, 3));
    assert(t8 * q == (-54) * mn(p, 2, 2, 2, 1, 3, 2, 2) + (-54) * mn(p, 1, 3, 2, 2, 2, 2, 2) + (54) * mn(p, 1, 3, 2, 0, 2, 4, 2) + (108) * mn(p, 1, 2, 3, 0, 3, 3, 2) + (-18) * mn(p, 0, 4, 2, 0, 3, 3, 2) + (108) * mn(p, 0, 3, 3, 1, 2, 3, 2) + (-18) * mn(p, 0, 3, 3, 0, 4, 2, 2) + (-54) * mn(p, 0, 3, 3, 0, 2, 4, 3) + (54) * mn(p, 0, 2, 4, 1, 3, 2, 2) + (-54) * mn(p, 0, 2, 4, 0, 3, 3, 3));
    lemma_tm(p, 54, 0, 2, 2, 0, 2, 2, 0, 3, 2, 0, 0, 1, 1, 0, 0);
    assert(t9 * s0 == (162) * mn(p, 2, 2, 2, 1, 3, 2, 0));
    lemma_tm(p, 54, 0, 2, 2, 0, 2, 2, 0, 3, 1, 1, 0, 2, 0, 0, 0);
    assert(t9 * s1 == (162) * mn(p, 1, 3, 2, 2, 2, 2, 0));
    lemma_tm(p, 54, 0, 2, 2, 0, 2, 2, 0, -3, 1, 1, 0, 0, 0, 2, 0);
    assert(t9 * s2 == (-162) * mn(p, 1, 3, 2, 0, 2, 4, 0));
    lemma_tm(p, 54, 0, 2, 2, 0, 2, 2, 0, -6, 1, 0, 1, 0, 1, 1, 0);
    assert(t9 * s3 == (-324) * mn(p, 1, 2, 3, 0, 3, 3, 0));
    lemma_tm(p, 54, 0, 2, 2, 0, 2, 2, 0, 1, 0, 2, 0, 0, 1, 1, 0);
    assert(t9 * s4 == (54) * mn(p, 0, 4, 2, 0, 3, 3, 0));
    lemma_tm(p, 54, 0, 2, 2, 0, 2, 2, 0, -6, 0, 1, 1, 1, 0, 1, 0);
    assert(t9 * s5 == (-324) * mn(p, 0, 3, 3, 1, 2, 3, 0));
    lemma_tm(p, 54, 0, 2, 2, 0, 2, 2, 0, 1, 0, 1, 1, 0, 2, 0, 0);
    assert(t9 * s6 == (54) * mn(p, 0, 3, 3, 0, 4, 2, 0));
    lemma_tm(p, 54, 0, 2, 2, 0, 2, 2, 0, 3, 0, 1, 1, 0, 0, 2, 1);
    assert(t9 * s7 == (162) * mn(p, 0, 3, 3, 0, 2, 4, 1));
    lemma_tm(p, 54, 0, 2, 2, 0, 2, 2, 0, -3, 0, 0, 2, 1, 1, 0, 0);
    assert(t9 * s8 == (-162) * mn(p, 0, 2, 4, 1, 3, 2, 0));
    lemma_tm(p, 54, 0, 2, 2, 0, 2, 2, 0, 3, 0, 0, 2, 0, 1, 1, 1);
    assert(t9 * s9 == (162) * mn(p, 0, 2, 4, 0, 3, 3, 1));
    assert(t9 * q == (162) * mn(p, 2, 2, 2, 1, 3, 2, 0) + (162) * mn(p, 1, 3, 2, 2, 2, 2, 0) + (-162) * mn(p, 1, 3, 2, 0, 2, 4, 0) + (-324) * mn(p, 1, 2, 3, 0, 3, 3, 0) + (54) * mn(p, 0, 4, 2, 0, 3, 3, 0) + (-324) * mn(p, 0, 3, 3, 1, 2, 3, 0) + (54) * mn(p, 0, 3, 3, 0, 4, 2, 0) + (162) * mn(p, 0, 3, 3, 0, 2, 4, 1) + (-162) * mn(p, 0, 2, 4, 1, 3, 2, 0) + (162) * mn(p, 0, 2, 4, 0, 3, 3, 1));
    lemma_tm(p, 81, 0, 0, 4, 4, 0, 0, 0, 3, 2, 0, 0, 1, 1, 0, 0);
    assert(t10 * s0 == (243) * mn(p, 2, 0, 4, 5, 1, 0, 0));
    lemma_tm(p, 81, 0, 0, 4, 4, 0, 0, 0, 3, 1, 1, 0, 2, 0, 0, 0);
    assert(t10 * s1 == (243) * mn(p, 1, 1, 4, 6, 0, 0, 0));
    lemma_tm(p, 81, 0, 0, 4, 4, 0, 0, 0, -3, 1, 1, 0, 0, 0, 2, 0);
    assert(t10 * s2 == (-243) * mn(p, 1, 1, 4, 4, 0, 2, 0));
    lemma_tm(p, 81, 0, 0, 4, 4, 0, 0, 0, -6, 1, 0, 1, 0, 1, 1, 0);
    assert(t10 * s3 == (-486) * mn(p, 1, 0, 5, 4, 1, 1, 0));
    lemma_tm(p, 81, 0, 0, 4, 4, 0, 0, 0, 1, 0, 2, 0, 0, 1, 1, 0);
    assert(t10 * s4 == (81) * mn(p, 0, 2, 4, 4, 1, 1, 0));
    lemma_tm(p, 81, 0, 0, 4, 4, 0, 0, 0, -6, 0, 1, 1, 1, 0, 1, 0);
    assert(t10 * s5 == (-486) * mn(p, 0, 1, 5, 5, 0, 1, 0));
    lemma_tm(p, 81, 0, 0, 4, 4, 0, 0, 0, 1, 0, 1, 1, 0, 2, 0, 0);
    assert(t10 * s6 == (81) * mn(p, 0, 1, 5, 4, 2, 0, 0));
    lemma_tm(p, 81, 0, 0, 4, 4, 0, 0, 0, 3, 0, 1, 1, 0, 0, 2, 1);
    assert(t10 * s7 == (243) * mn(p, 0, 1, 5, 4, 0, 2, 1));
    lemma_tm(p, 81, 0, 0, 4, 4, 0, 0, 0, -3, 0, 0, 2, 1, 1, 0, 0);
    assert(t10 * s8 == (-243) * mn(p, 0, 0, 6, 5, 1, 0, 0));
    lemma_tm(p, 81, 0, 0, 4, 4, 0, 0, 0, 3, 0, 0, 2, 0, 1, 1, 1);
    assert(t10 * s9 == (243) * mn(p, 0, 0, 6, 4, 1, 1, 1));
    assert(t10 * q == (243) * mn(p, 2, 0, 4, 5, 1, 0, 0) + (243) * mn(p, 1, 1, 4, 6, 0, 0, 0) + (-243) * mn(p, 1, 1, 4, 4, 0, 2, 0) + (-486) * mn(p, 1, 0, 5, 4, 1, 1, 0) + (81) * mn(p, 0, 2, 4, 4, 1, 1, 0) + (-486) * mn(p, 0, 1, 5, 5, 0, 1, 0) + (81) * mn(p, 0, 1, 5, 4, 2, 0, 0) + (243) * mn(p, 0, 1, 5, 4, 0, 2, 1) + (-243) * mn(p, 0, 0, 6, 5, 1, 0, 0) + (243) * mn(p, 0, 0, 6, 4, 1, 1, 1));
    lemma_tm(p, -162, 0, 0, 4, 3, 0, 1, 1, 3, 2, 0, 0, 1, 1, 0, 0);
    assert(t11 * s0 == (-486) * mn(p, 2, 0, 4, 4, 1, 1, 1));
    lemma_tm(p, -162, 0, 0, 4, 3, 0, 1, 1, 3, 1, 1, 0, 2, 0, 0, 0);
    assert(t11 * s1 == (-486) * mn(p, 1, 1, 4, 5, 0, 1, 1));
    lemma_tm(p, -162, 0, 0, 4, 3, 0, 1, 1, -3, 1, 1, 0, 0, 0, 2, 0);
    assert(t11 * s2 == (486) * mn(p, 1, 1, 4, 3, 0, 3, 1));
    lemma_tm(p, -162, 0, 0, 4, 3, 0, 1, 1, -6, 1, 0, 1, 0, 1, 1, 0);
    assert(t11 * s3 == (972) * mn(p, 1, 0, 5, 3, 1, 2, 1));
    lemma_tm(p, -162, 0, 0, 4, 3, 0, 1, 1, 1, 0, 2, 0, 0, 1, 1, 0);
    assert(t11 * s4 == (-162) * mn(p, 0, 2, 4, 3, 1, 2, 1));
    lemma_tm(p, -162, 0, 0, 4, 3, 0, 1, 1, -6, 0, 1, 1, 1, 0, 1, 0);
    assert(t11 * s5 == (972) * mn(p, 0, 1, 5, 4, 0, 2, 1));
    lemma_tm(p, -162, 0, 0, 4, 3, 0, 1, 1, 1, 0, 1, 1, 0, 2, 0, 0);
    assert(t11 * s6 == (-162) * mn(p, 0, 1, 5, 3, 2, 1, 1));
    lemma_tm(p, -162, 0, 0, 4, 3, 0, 1, 1, 3, 0, 1, 1, 0, 0, 2, 1);
    assert(t11 * s7 == (-486) * mn(p, 0, 1, 5, 3, 0, 3, 2));
    lemma_tm(p, -162, 0, 0, 4, 3, 0, 1, 1, -3, 0, 0, 2, 1, 1, 0, 0);
    assert(t11 * s8 == (486) * mn(p, 0, 0, 6, 4, 1, 1, 1));
    lemma_tm(p, -162, 0, 0, 4, 3, 0, 1, 1, 3, 0, 0, 2, 0, 1, 1, 1);
    assert(t11 * s9 == (-486) * mn(p, 0, 0, 6, 3, 1, 2, 2));
    assert(t11 * q == (-486) * mn(p, 2, 0, 4, 4, 1, 1, 1) + (-486) * mn(p, 1, 1, 4, 5, 0, 1, 1) + (486) * mn(p, 1, 1, 4, 3, 0, 3, 1) + (972) * mn(p, 1, 0, 5, 3, 1, 2, 1) + (-162) * mn(p, 0, 2, 4, 3, 1, 2, 1) + (972) * mn(p, 0, 1, 5, 4, 0, 2, 1) + (-162) * mn(p, 0, 1, 5, 3, 2, 1, 1) + (-486) * mn(p, 0, 1, 5, 3, 0, 3, 2) + (486) * mn(p, 0, 0, 6, 4, 1, 1, 1) + (-486) * mn(p, 0, 0, 6, 3, 1, 2, 2));
    lemma_tm(p, 243, 0, 0, 4, 2, 0, 2, 2, 3, 2, 0, 0, 1, 1, 0, 0);
    assert(t12 * s0 == (729) * mn(p, 2, 0, 4, 3, 1, 2, 2));
    lemma_tm(p, 243, 0, 0, 4, 2, 0, 2, 2, 3, 1, 1, 0, 2, 0, 0, 0);
    assert(t12 * s1 == (729) * mn(p, 1, 1, 4, 4, 0, 2, 2));
    lemma_tm(p, 243, 0, 0, 4, 2, 0, 2, 2, -3, 1, 1, 0, 0, 0, 2, 0);
    assert(t12 * s2 == (-729) * mn(p, 1, 1, 4, 2, 0, 4, 2));
    lemma_tm(p, 243, 0, 0, 4, 2, 0, 2, 2, -6, 1, 0, 1, 0, 1, 1, 0);
    assert(t12 * s3 == (-1458) * mn(p, 1, 0, 5, 2, 1, 3, 2));
    lemma_tm(p, 243, 0, 0, 4, 2, 0, 2, 2, 1, 0, 2, 0, 0, 1, 1, 0);
    assert(t12 * s4 == (243) * mn(p, 0, 2, 4, 2, 1, 3, 2));
    lemma_tm(p, 243, 0, 0, 4, 2, 0, 2, 2, -6, 0, 1, 1, 1, 0, 1, 0);
    assert(t12 * s5 == (-1458) * mn(p, 0, 1, 5, 3, 0, 3, 2));
    lemma_tm(p, 243, 0, 0, 4, 2, 0, 2, 2, 1, 0, 1, 1, 0, 2, 0, 0);
    assert(t12 * s6 == (243) * mn(p, 0, 1, 5, 2, 2, 2, 2));
    lemma_tm(p, 243, 0, 0, 4, 2, 0, 2, 2, 3, 0, 1, 1, 0, 0, 2, 1);
    assert(t12 * s7 == (729) * mn(p, 0, 1, 5, 2, 0, 4, 3));
    lemma_tm(p, 243, 0, 0, 4, 2, 0, 2, 2, -3, 0, 0, 2, 1, 1, 0, 0);
    assert(t12 * s8 == (-729) * mn(p, 0, 0, 6, 3, 1, 2, 2));
    lemma_tm(p, 243, 0, 0, 4, 2, 0, 2, 2, 3, 0, 0, 2, 0, 1, 1, 1);
    assert(t12 * s9 == (729) * mn(p, 0, 0, 6, 2, 1, 3, 3));
    assert(t12 * q == (729) * mn(p, 2, 0, 4, 3, 1, 2, 2) + (729) * mn(p, 1, 1, 4, 4, 0, 2, 2) + (-729) * mn(p, 1, 1, 4, 2, 0, 4, 2) + (-1458) * mn(p, 1, 0, 5, 2, 1, 3, 2) + (243) * mn(p, 0, 2, 4, 2, 1, 3, 2) + (-1458) * mn(p, 0, 1, 5, 3, 0, 3, 2) + (243) * mn(p, 0, 1, 5, 2, 2, 2, 2) + (729) * mn(p, 0, 1, 5, 2, 0, 4, 3) + (-729) * mn(p, 0, 0, 6, 3, 1, 2, 2) + (729) * mn(p, 0, 0, 6, 2, 1, 3, 3));
    lemma_tm(p, -486, 0, 0, 4, 2, 0, 2, 0, 3, 2, 0, 0, 1, 1, 0, 0);
    assert(t13 * s0 == (-1458) * mn(p, 2, 0, 4, 3, 1, 2, 0));
    lemma_tm(p, -486, 0, 0, 4, 2, 0, 2, 0, 3, 1, 1, 0, 2, 0, 0, 0);
    assert(t13 * s1 == (-1458) * mn(p, 1, 1, 4, 4, 0, 2, 0));
    lemma_tm(p, -486, 0, 0, 4, 2, 0, 2, 0, -3, 1, 1, 0, 0, 0, 2, 0);
    assert(t13 * s2 == (1458) * mn(p, 1, 1, 4, 2, 0, 4, 0));
    lemma_tm(p, -486, 0, 0, 4, 2, 0, 2, 0, -6, 1, 0, 1, 0, 1, 1, 0);
    assert(t13 * s3 == (2916) * mn(p, 1, 0, 5, 2, 1, 3, 0));
    lemma_tm(p, -486, 0, 0, 4, 2, 0, 2, 0, 1, 0, 2, 0, 0, 1, 1, 0);
    assert(t13 * s4 == (-486) * mn(p, 0, 2, 4, 2, 1, 3, 0));
    lemma_tm(p, -486, 0, 0, 4, 2, 0, 2, 0, -6, 0, 1, 1, 1, 0, 1, 0);
    assert(t13 * s5 == (2916) * mn(p, 0, 1, 5, 3, 0, 3, 0));
    lemma_tm(p, -486, 0, 0, 4, 2, 0, 2, 0, 1, 0, 1, 1, 0, 2, 0, 0);
    assert(t13 * s6 == (-486) * mn(p, 0, 1, 5, 2, 2, 2, 0));
    lemma_tm(p, -486, 0, 0, 4, 2, 0, 2, 0, 3, 0, 1, 1, 0, 0, 2, 1);
    assert(t13 * s7 == (-1458) * mn(p, 0, 1, 5, 2, 0, 4, 1));
    lemma_tm(p, -486, 0, 0, 4, 2, 0, 2, 0, -3, 0, 0, 2, 1, 1, 0, 0);
    assert(t13 * s8 == (1458) * mn(p, 0, 0, 6, 3, 1, 2, 0));
    lemma_tm(p, -486, 0, 0, 4, 2, 0, 2, 0, 3, 0, 0, 2, 0, 1, 1, 1);
    assert(t13 * s9 == (-1458) * mn(p, 0, 0, 6, 2, 1, 3, 1));
    assert(t13 * q == (-1458) * mn(p, 2, 0, 4, 3, 1, 2, 0) + (-1458) * mn(p, 1, 1, 4, 4, 0, 2, 0) + (1458) * mn(p, 1, 1, 4, 2, 0, 4, 0) + (2916) * mn(p, 1, 0, 5, 2, 1, 3, 0) + (-486) * mn(p, 0, 2, 4, 2, 1, 3, 0) + (2916) * mn(p, 0, 1, 5, 3, 0, 3, 0) + (-486) * mn(p, 0, 1, 5, 2, 2, 2, 0) + (-1458) * mn(p, 0, 1, 5, 2, 0, 4, 1) + (1458) * mn(p, 0, 0, 6, 3, 1, 2, 0) + (-1458) * mn(p, 0, 0, 6, 2, 1, 3, 1));
    lemma_tm(p, -162, 0, 0, 4, 1, 0, 3, 3, 3, 2, 0, 0, 1, 1, 0, 0);
    assert(t14 * s0 == (-486) * mn(p, 2, 0, 4, 2, 1, 3, 3));
    lemma_tm(p, -162, 0, 0, 4, 1, 0, 3, 3, 3, 1, 1, 0, 2, 0, 0, 0);
    assert(t14 * s1 == (-486) * mn(p, 1, 1, 4, 3, 0, 3, 3));
    lemma_tm(p, -162, 0, 0, 4, 1, 0, 3, 3, -3, 1, 1, 0, 0, 0, 2, 0);
    assert(t14 * s2 == (486) * mn(p, 1, 1, 4, 1, 0, 5, 3));
    lemma_tm(p, -162, 0, 0, 4, 1, 0, 3, 3, -6, 1, 0, 1, 0, 1, 1, 0);
    assert(t14 * s3 == (972) * mn(p, 1, 0, 5, 1, 1, 4, 3));
    lemma_tm(p, -162, 0, 0, 4, 1, 0, 3, 3, 1, 0, 2, 0, 0, 1, 1, 0);
    assert(t14 * s4 == (-162) * mn(p, 0, 2, 4, 1, 1, 4, 3));
    lemma_tm(p, -162, 0, 0, 4, 1, 0, 3, 3, -6, 0, 1, 1, 1, 0, 1, 0);
    assert(t14 * s5 == (972) * mn(p, 0, 1, 5, 2, 0, 4, 3));
    lemma_tm(p, -162, 0, 0, 4, 1, 0, 3, 3, 1, 0, 1, 1, 0, 2, 0, 0);
    assert(t14 * s6 == (-162) * mn(p, 0, 1, 5, 1, 2, 3, 3));
    lemma_tm(p, -162, 0, 0, 4, 1, 0, 3, 3, 3, 0, 1, 1, 0, 0, 2, 1);
    assert(t14 * s7 == (-486) * mn(p, 0, 1, 5, 1, 0, 5, 4));
    lemma_tm(p, -162, 0, 0, 4, 1, 0, 3, 3, -3, 0, 0, 2, 1, 1, 0, 0);
    assert(t14 * s8 == (486) * mn(p, 0, 0, 6, 2, 1, 3, 3));
    lemma_tm(p, -162, 0, 0, 4, 1, 0, 3, 3, 3, 0, 0, 2, 0, 1, 1, 1);
    assert(t14 * s9 == (-486) * mn(p, 0, 0, 6, 1, 1, 4, 4));
    assert(t14 * q == (-486) * mn(p, 2, 0, 4, 2, 1, 3, 3) + (-486) * mn(p, 1, 1, 4, 3, 0, 3, 3) + (486) * mn(p, 1, 1, 4, 1, 0, 5, 3) + (972) * mn(p, 1, 0, 5, 1, 1, 4, 3) + (-162) * mn(p, 0, 2, 4, 1, 1, 4, 3) + (972) * mn(p, 0, 1, 5, 2, 0, 4, 3) + (-162) * mn(p, 0, 1, 5, 1, 2, 3, 3) + (-486) * mn(p, 0, 1, 5, 1, 0, 5, 4) + (486) * mn(p, 0, 0, 6, 2, 1, 3, 3) + (-486) * mn(p, 0, 0, 6, 1, 1, 4, 4));
    lemma_tm(p, 486, 0, 0, 4, 1, 0, 3, 1, 3, 2, 0, 0, 1, 1, 0, 0);
    assert(t15 * s0 == (1458) * mn(p, 2, 0, 4, 2, 1, 3, 1));
    lemma_tm(p, 486, 0, 0, 4, 1, 0, 3, 1, 3, 1, 1, 0, 2, 0, 0, 0);
    assert(t15 * s1 == (1458) * mn(p, 1, 1, 4, 3, 0, 3, 1));
    lemma_tm(p, 486, 0, 0, 4, 1, 0, 3, 1, -3, 1, 1, 0, 0, 0, 2, 0);
    assert(t15 * s2 == (-1458) * mn(p, 1, 1, 4, 1, 0, 5, 1));
    lemma_tm(p, 486, 0, 0, 4, 1, 0, 3, 1, -6, 1, 0, 1, 0, 1, 1, 0);
    assert(t15 * s3 == (-2916) * mn(p, 1, 0, 5, 1, 1, 4, 1));
    lemma_tm(p, 486, 0, 0, 4, 1, 0, 3, 1, 1, 0, 2, 0, 0, 1, 1, 0);
    assert(t15 * s4 == (486) * mn(p, 0, 2, 4, 1, 1, 4, 1));
    lemma_tm(p, 486, 0, 0, 4, 1, 0, 3, 1, -6, 0, 1, 1, 1, 0, 1, 0);
    assert(t15 * s5 == (-2916) * mn(p, 0, 1, 5, 2, 0, 4, 1));
    lemma_tm(p, 486, 0, 0, 4, 1, 0, 3, 1, 1, 0, 1, 1, 0, 2, 0, 0);
    assert(t15 * s6 == (486) * mn(p, 0, 1, 5, 1, 2, 3, 1));
    lemma_tm(p, 486, 0, 0, 4, 1, 0, 3, 1, 3, 0, 1, 1, 0, 0, 2, 1);
    assert(t15 * s7 == (1458) * mn(p, 0, 1, 5, 1, 0, 5, 2));
    lemma_tm(p, 486, 0, 0, 4, 1, 0, 3, 1, -3, 0, 0, 2, 1, 1, 0, 0);
    assert(t15 * s8 == (-1458) * mn(p, 0, 0, 6, 2, 1, 3, 1));
    lemma_tm(p, 486, 0, 0, 4, 1, 0, 3, 1, 3, 0, 0, 2, 0, 1, 1, 1);
    assert(t15 * s9 == (1458) * mn(p, 0, 0, 6, 1, 1, 4, 2));
    assert(t15 * q == (1458) * mn(p, 2, 0, 4, 2, 1, 3, 1) + (1458) * mn(p, 1, 1, 4, 3, 0, 3, 1) + (-1458) * mn(p, 1, 1, 4, 1, 0, 5, 1) + (-2916) * mn(p, 1, 0, 5, 1, 1, 4, 1) + (486) * mn(p, 0, 2, 4, 1, 1, 4, 1) + (-2916) * mn(p, 0, 1, 5, 2, 0, 4, 1) + (486) * mn(p, 0, 1, 5, 1, 2, 3, 1) + (1458) * mn(p, 0, 1, 5, 1, 0, 5, 2) + (-1458) * mn(p, 0, 0, 6, 2, 1, 3, 1) + (1458) * mn(p, 0, 0, 6, 1, 1, 4, 2));
    lemma_tm(p, 81, 0, 0, 4, 0, 0, 4, 4, 3, 2, 0, 0, 1, 1, 0, 0);
    assert(t16 * s0 == (243) * mn(p, 2, 0, 4, 1, 1, 4, 4));
    lemma_tm(p, 81, 0, 0, 4, 0, 0, 4, 4, 3, 1, 1, 0, 2, 0, 0, 0);
    assert(t16 * s1 == (243) * mn(p, 1, 1, 4, 2, 0, 4, 4));
    lemma_tm(p, 81, 0, 0, 4, 0, 0, 4, 4, -3, 1, 1, 0, 0, 0, 2, 0);
    assert(t16 * s2 == (-243) * mn(p, 1, 1, 4, 0, 0, 6, 4));
    lemma_tm(p, 81, 0, 0, 4, 0, 0, 4, 4, -6, 1, 0, 1, 0, 1, 1, 0);
    assert(t16 * s3 == (-486) * mn(p, 1, 0, 5, 0, 1, 5, 4));
    lemma_tm(p, 81, 0, 0, 4, 0, 0, 4, 4, 1, 0, 2, 0, 0, 1, 1, 0);
    assert(t16 * s4 == (81) * mn(p, 0, 2, 4, 0, 1, 5, 4));
    lemma_tm(p, 81, 0, 0, 4, 0, 0, 4, 4, -6, 0, 1, 1, 1, 0, 1, 0);
    assert(t16 * s5 == (-486) * mn(p, 0, 1, 5, 1, 0, 5, 4));
    lemma_tm(p, 81, 0, 0, 4, 0, 0, 4, 4, 1, 0, 1, 1, 0, 2, 0, 0);
    assert(t16 * s6 == (81) * mn(p, 0, 1, 5, 0, 2, 4, 4));
    lemma_tm(p, 81, 0, 0, 4, 0, 0, 4, 4, 3, 0, 1, 1, 0, 0, 2, 1);
    assert(t16 * s7 == (243) * mn(p, 0, 1, 5, 0, 0, 6, 5));
    lemma_tm(p, 81, 0, 0, 4, 0, 0, 4, 4, -3, 0, 0, 2, 1, 1, 0, 0);
    assert(t16 * s8 == (-243) * mn(p, 0, 0, 6, 1, 1, 4, 4));
    lemma_tm(p, 81, 0, 0, 4, 0, 0, 4, 4, 3, 0, 0, 2, 0, 1, 1, 1);
    assert(t16 * s9 == (243) * mn(p, 0, 0, 6, 0, 1, 5, 5));
    assert(t16 * q == (243) * mn(p, 2, 0, 4, 1, 1, 4, 4) + (243) * mn(p, 1, 1, 4, 2, 0, 4, 4) + (-243) * mn(p, 1, 1, 4, 0, 0, 6, 4) + (-486) * mn(p, 1, 0, 5, 0, 1, 5, 4) + (81) * mn(p, 0, 2, 4, 0, 1, 5, 4) + (-486) * mn(p, 0, 1, 5, 1, 0, 5, 4) + (81) * mn(p, 0, 1, 5, 0, 2, 4, 4) + (243) * mn(p, 0, 1, 5, 0, 0, 6, 5) + (-243) * mn(p, 0, 0, 6, 1, 1, 4, 4) + (243) * mn(p, 0, 0, 6, 0, 1, 5, 5));
    lemma_tm(p, -486, 0, 0, 4, 0, 0, 4, 2, 3, 2, 0, 0, 1, 1, 0, 0);
    assert(t17 * s0 == (-1458) * mn(p, 2, 0, 4, 1, 1, 4, 2));
    lemma_tm(p, -486, 0, 0, 4, 0, 0, 4, 2, 3, 1, 1, 0, 2, 0, 0, 0);
    assert(t17 * s1 == (-1458) * mn(p, 1, 1, 4, 2, 0, 4, 2));
    lemma_tm(p, -486, 0, 0, 4, 0, 0, 4, 2, -3, 1, 1, 0, 0, 0, 2, 0);
    assert(t17 * s2 == (1458) * mn(p, 1, 1, 4, 0, 0, 6, 2));
    lemma_tm(p, -486, 0, 0, 4, 0, 0, 4, 2, -6, 1, 0, 1, 0, 1, 1, 0);
    assert(t17 * s3 == (2916) * mn(p, 1, 0, 5, 0, 1, 5, 2));
    lemma_tm(p, -486, 0, 0, 4, 0, 0, 4, 2, 1, 0, 2, 0, 0, 1, 1, 0);
    assert(t17 * s4 == (-486) * mn(p, 0, 2, 4, 0, 1, 5, 2));
    lemma_tm(p, -486, 0, 0, 4, 0, 0, 4, 2, -6, 0, 1, 1, 1, 0, 1, 0);
    assert(t17 * s5 == (2916) * mn(p, 0, 1, 5, 1, 0, 5, 2));
    lemma_tm(p, -486, 0, 0, 4, 0, 0, 4, 2, 1, 0, 1, 1, 0, 2, 0, 0);
    assert(t17 * s6 == (-486) * mn(p, 0, 1, 5, 0, 2, 4, 2));
    lemma_tm(p, -486, 0, 0, 4, 0, 0, 4, 2, 3, 0, 1, 1, 0, 0, 2, 1);
    assert(t17 * s7 == (-1458) * mn(p, 0, 1, 5, 0, 0, 6, 3));
    lemma_tm(p, -486, 0, 0, 4, 0, 0, 4, 2, -3, 0, 0, 2, 1, 1, 0, 0);
    assert(t17 * s8 == (1458) * mn(p, 0, 0, 6, 1, 1, 4, 2));
    lemma_tm(p, -486, 0, 0, 4, 0, 0, 4, 2, 3, 0, 0, 2, 0, 1, 1, 1);
    assert(t17 * s9 == (-1458) * mn(p, 0, 0, 6, 0, 1, 5, 3));
    assert(t17 * q == (-1458) * mn(p, 2, 0, 4, 1, 1, 4, 2) + (-1458) * mn(p, 1, 1, 4, 2, 0, 4, 2) + (1458) * mn(p, 1, 1, 4, 0, 0, 6, 2) + (2916) * mn(p, 1, 0, 5, 0, 1, 5, 2) + (-486) * mn(p, 0, 2, 4, 0, 1, 5, 2) + (2916) * mn(p, 0, 1, 5, 1, 0, 5, 2) + (-486) * mn(p, 0, 1, 5, 0, 2, 4, 2) + (-1458) * mn(p, 0, 1, 5, 0, 0, 6, 3) + (1458) * mn(p, 0, 0, 6, 1, 1, 4, 2) + (-1458) * mn(p, 0, 0, 6, 0, 1, 5, 3));
    lemma_tm(p, 729, 0, 0, 4, 0, 0, 4, 0, 3, 2, 0, 0, 1, 1, 0, 0);
    assert(t18 * s0 == (2187) * mn(p, 2, 0, 4, 1, 1, 4, 0));
    lemma_tm(p, 729, 0, 0, 4, 0, 0, 4, 0, 3, 1, 1, 0, 2, 0, 0, 0);
    assert(t18 * s1 == (2187) * mn(p, 1, 1, 4, 2, 0, 4, 0));
    lemma_tm(p, 729, 0, 0, 4, 0, 0, 4, 0, -3, 1, 1, 0, 0, 0, 2, 0);
    assert(t18 * s2 == (-2187) * mn(p, 1, 1, 4, 0, 0, 6, 0));
    lemma_tm(p, 729, 0, 0, 4, 0, 0, 4, 0, -6, 1, 0, 1, 0, 1, 1, 0);
    assert(t18 * s3 == (-4374) * mn(p, 1, 0, 5, 0, 1, 5, 0));
    lemma_tm(p, 729, 0, 0, 4, 0, 0, 4, 0, 1, 0, 2, 0, 0, 1, 1, 0);
    assert(t18 * s4 == (729) * mn(p, 0, 2, 4, 0, 1, 5, 0));
    lemma_tm(p, 729, 0, 0, 4, 0, 0, 4, 0, -6, 0, 1, 1, 1, 0, 1, 0);
    assert(t18 * s5 == (-4374) * mn(p, 0, 1, 5, 1, 0, 5, 0));
    lemma_tm(p, 729, 0, 0, 4, 0, 0, 4, 0, 1, 0, 1, 1, 0, 2, 0, 0);
    assert(t18 * s6 == (729) * mn(p, 0, 1, 5, 0, 2, 4, 0));
    lemma_tm(p, 729, 0, 0, 4, 0, 0, 4, 0, 3, 0, 1, 1, 0, 0, 2, 1);
    assert(t18 * s7 == (2187) * mn(p, 0, 1, 5, 0, 0, 6, 1));
    lemma_tm(p, 729, 0, 0, 4, 0, 0, 4, 0, -3, 0, 0, 2, 1, 1, 0, 0);
    assert(t18 * s8 == (-2187) * mn(p, 0, 0, 6, 1, 1, 4, 0));
    lemma_tm(p, 729, 0, 0, 4, 0, 0, 4, 0, 3, 0, 0, 2, 0, 1, 1, 1);
    assert(t18 * s9 == (2187) * mn(p, 0, 0, 6, 0, 1, 5, 1));
    assert(t18 * q == (2187) * mn(p, 2, 0, 4, 1, 1, 4, 0) + (2187) * mn(p, 1, 1, 4, 2, 0, 4, 0) + (-2187) * mn(p, 1, 1, 4, 0, 0, 6, 0) + (-4374) * mn(p, 1, 0, 5, 0, 1, 5, 0) + (729) * mn(p, 0, 2, 4, 0, 1, 5, 0) + (-4374) * mn(p, 0, 1, 5, 1, 0, 5, 0) + (729) * mn(p, 0, 1, 5, 0, 2, 4, 0) + (2187) * mn(p, 0, 1, 5, 0, 0, 6, 1) + (-2187) * mn(p, 0, 0, 6, 1, 1, 4, 0) + (2187) * mn(p, 0, 0, 6, 0, 1, 5, 1));
    assert(pp18 * q == ((((((((-972) * mn(p, 3, 0, 3, 3, 1, 2, 1) + (2430) * mn(p, 3, 0, 3, 2, 1, 3, 2)) + ((-5832) * mn(p, 3, 0, 3, 2, 1, 3, 0) + (-486) * mn(p, 3, 0, 3, 1, 1, 4, 3))) + (((1458) * mn(p, 3, 0, 3, 1, 1, 4, 1) + (3) * mn(p, 2, 4, 0, 1, 5, 0, 0)) + ((-54) * mn(p, 2, 2, 2, 3, 3, 0, 0) + ((54) * mn(p, 2, 2, 2, 2, 3, 1, 1) + (-54) * mn(p, 2, 2, 2, 1, 3, 2, 2))))) + ((((162) * mn(p, 2, 2, 2, 1, 3, 2, 0) + (-972) * mn(p, 2, 1, 3, 4, 0, 2, 1)) + ((2430) * mn(p, 2, 1, 3, 3, 0, 3, 2) + (-5832) * mn(p, 2, 1, 3, 3, 0, 3, 0))) + (((-486) * mn(p, 2, 1, 3, 2, 0, 4, 3) + (2430) * mn(p, 2, 1, 3, 2, 0, 4, 1)) + ((-2430) * mn(p, 2, 1, 3, 1, 0, 5, 2) + ((5832) * mn(p, 2, 1, 3, 1, 0, 5, 0) + (486) * mn(p, 2, 1, 3, 0, 0, 6, 3)))))) + (((((-1458) * mn(p, 2, 1, 3, 0, 0, 6, 1) + (243) * mn(p, 2, 0, 4, 5, 1, 0, 0)) + ((-486) * mn(p, 2, 0, 4, 4, 1, 1, 1) + (729) * mn(p, 2, 0, 4, 3, 1, 2, 2))) + (((-1458) * mn(p, 2, 0, 4, 3, 1, 2, 0) + (-486) * mn(p, 2, 0, 4, 2, 1, 3, 3)) + ((3402) * mn(p, 2, 0, 4, 2, 1, 3, 1) + ((243) * mn(p, 2, 0, 4, 1, 1, 4, 4) + (-6318) * mn(p, 2, 0, 4, 1, 1, 4, 2))))) + ((((13851) * mn(p, 2, 0, 4, 1, 1, 4, 0) + (972) * mn(p, 2, 0, 4, 0, 1, 5, 3)) + ((-2916) * mn(p, 2, 0, 4, 0, 1, 5, 1) + (3) * mn(p, 1, 5, 0, 2, 4, 0, 0))) + (((-3) * mn(p, 1, 5, 0, 0, 4, 2, 0) + (-6) * mn(p, 1, 4, 1, 0, 5, 1, 0)) + ((-54) * mn(p, 1, 3, 2, 4, 2, 0, 0) + ((54) * mn(p, 1, 3, 2, 3, 2, 1, 1) + (-54) * mn(p, 1, 3, 2, 2, 2, 2, 2))))))) + ((((((216) * mn(p, 1, 3, 2, 2, 2, 2, 0) + (-54) * mn(p, 1, 3, 2, 1, 2, 3, 1)) + ((54) * mn(p, 1, 3, 2, 0, 2, 4, 2) + (-162) * mn(p, 1, 3, 2, 0, 2, 4, 0))) + (((108) * mn(p, 1, 2, 3, 2, 3, 1, 0) + (-324) * mn(p, 1, 2, 3, 2, 1, 3, 1)) + ((-108) * mn(p, 1, 2, 3, 1, 3, 2, 1) + ((810) * mn(p, 1, 2, 3, 1, 1, 4, 2) + (-1944) * mn(p, 1, 2, 3, 1, 1, 4, 0))))) + ((((108) * mn(p, 1, 2, 3, 0, 3, 3, 2) + (-324) * mn(p, 1, 2, 3, 0, 3, 3, 0)) + ((-162) * mn(p, 1, 2, 3, 0, 1, 5, 3) + (486) * mn(p, 1, 2, 3, 0, 1, 5, 1))) + (((243) * mn(p, 1, 1, 4, 6, 0, 0, 0) + (-486) * mn(p, 1, 1, 4, 5, 0, 1, 1)) + ((729) * mn(p, 1, 1, 4, 4, 0, 2, 2) + ((-1701) * mn(p, 1, 1, 4, 4, 0, 2, 0) + (-486) * mn(p, 1, 1, 4, 3, 0, 3, 3)))))) + (((((3888) * mn(p, 1, 1, 4, 3, 0, 3, 1) + (-324) * mn(p, 1, 1, 4, 2, 2, 2, 1)) + ((243) * mn(p, 1, 1, 4, 2, 0, 4, 4) + (-8019) * mn(p, 1, 1, 4, 2, 0, 4, 2))) + (((15309) * mn(p, 1, 1, 4, 2, 0, 4, 0) + (810) * mn(p, 1, 1, 4, 1, 2, 3, 2)) + ((-1944) * mn(p, 1, 1, 4, 1, 2, 3, 0) + ((3888) * mn(p, 1, 1, 4, 1, 0, 5, 3) + (-10206) * mn(p, 1, 1, 4, 1, 0, 5, 1))))) + ((((-162) * mn(p, 1, 1, 4, 0, 2, 4, 3) + (486) * mn(p, 1, 1, 4, 0, 2, 4, 1)) + ((-729) * mn(p, 1, 1, 4, 0, 0, 6, 4) + (2916) * mn(p, 1, 1, 4, 0, 0, 6, 2))) + (((-2187) * mn(p, 1, 1, 4, 0, 0, 6, 0) + (-486) * mn(p, 1, 0, 5, 4, 1, 1, 0)) + ((1944) * mn(p, 1, 0, 5, 3, 1, 2, 1) + ((-4860) * mn(p, 1, 0, 5, 2, 1, 3, 2) + (8748) * mn(p, 1, 0, 5, 2, 1, 3, 0)))))))) + (((((((3888) * mn(p, 1, 0, 5, 1, 1, 4, 3) + (-10206) * mn(p, 1, 0, 5, 1, 1, 4, 1)) + ((-972) * mn(p, 1, 0, 5, 0, 1, 5, 4) + (4374) * mn(p, 1, 0, 5, 0, 1, 5, 2))) + (((-4374) * mn(p, 1, 0, 5, 0, 1, 5, 0) + (1) * mn(p, 0, 6, 0, 0, 5, 1, 0)) + ((-6) * mn(p, 0, 5, 1, 1, 4, 1, 0) + ((1) * mn(p, 0, 5, 1, 0, 6, 0, 0) + (3) * mn(p, 0, 5, 1, 0, 4, 2, 1))))) + ((((-18) * mn(p, 0, 4, 2, 2, 3, 1, 0) + (-3) * mn(p, 0, 4, 2, 1, 5, 0, 0)) + ((18) * mn(p, 0, 4, 2, 1, 3, 2, 1) + (3) * mn(p, 0, 4, 2, 0, 5, 1, 1))) + (((-18) * mn(p, 0, 4, 2, 0, 3, 3, 2) + (54) * mn(p, 0, 4, 2, 0, 3, 3, 0)) + ((108) * mn(p, 0, 3, 3, 3, 2, 1, 0) + ((-18) * mn(p, 0, 3, 3, 2, 4, 0, 0) + (-162) * mn(p, 0, 3, 3, 2, 2, 2, 1)))))) + (((((18) * mn(p, 0, 3, 3, 1, 4, 1, 1) + (162) * mn(p, 0, 3, 3, 1, 2, 3, 2)) + ((-324) * mn(p, 0, 3, 3, 1, 2, 3, 0) + (-18) * mn(p, 0, 3, 3, 0, 4, 2, 2))) + (((54) * mn(p, 0, 3, 3, 0, 4, 2, 0) + (-54) * mn(p, 0, 3, 3, 0, 2, 4, 3)) + ((162) * mn(p, 0, 3, 3, 0, 2, 4, 1) + ((81) * mn(p, 0, 2, 4, 4, 1, 1, 0) + (54) * mn(p, 0, 2, 4, 3, 3, 0, 0))))) + ((((-162) * mn(p, 0, 2, 4, 3, 1, 2, 1) + (-108) * mn(p, 0, 2, 4, 2, 3, 1, 1)) + ((243) * mn(p, 0, 2, 4, 2, 1, 3, 2) + (-486) * mn(p, 0, 2, 4, 2, 1, 3, 0))) + (((108) * mn(p, 0, 2, 4, 1, 3, 2, 2) + (-162) * mn(p, 0, 2, 4, 1, 3, 2, 0)) + ((-162) * mn(p, 0, 2, 4, 1, 1, 4, 3) + ((486) * mn(p, 0, 2, 4, 1, 1, 4, 1) + (-54) * mn(p, 0, 2, 4, 0, 3, 3, 3))))))) + ((((((162) * mn(p, 0, 2, 4, 0, 3, 3, 1) + (81) * mn(p, 0, 2, 4, 0, 1, 5, 4)) + ((-486) * mn(p, 0, 2, 4, 0, 1, 5, 2) + (729) * mn(p, 0, 2, 4, 0, 1, 5, 0))) + (((-486) * mn(p, 0, 1, 5, 5, 0, 1, 0) + (81) * mn(p, 0, 1, 5, 4, 2, 0, 0)) + ((1215) * mn(p, 0, 1, 5, 4, 0, 2, 1) + ((-162) * mn(p, 0, 1, 5, 3, 2, 1, 1) + (-1944) * mn(p, 0, 1, 5, 3, 0, 3, 2))))) + ((((2916) * mn(p, 0, 1, 5, 3, 0, 3, 0) + (243) * mn(p, 0, 1, 5, 2, 2, 2, 2)) + ((-486) * mn(p, 0, 1, 5, 2, 2, 2, 0) + (1701) * mn(p, 0, 1, 5, 2, 0, 4, 3))) + (((-4374) * mn(p, 0, 1, 5, 2, 0, 4, 1) + (-162) * mn(p, 0, 1, 5, 1, 2, 3, 3)) + ((486) * mn(p, 0, 1, 5, 1, 2, 3, 1) + ((-972) * mn(p, 0, 1, 5, 1, 0, 5, 4) + (4374) * mn(p, 0, 1, 5, 1, 0, 5, 2)))))) + (((((-4374) * mn(p, 0, 1, 5, 1, 0, 5, 0) + (81) * mn(p, 0, 1, 5, 0, 2, 4, 4)) + ((-486) * mn(p, 0, 1, 5, 0, 2, 4, 2) + (729) * mn(p, 0, 1, 5, 0, 2, 4, 0))) + (((243) * mn(p, 0, 1, 5, 0, 0, 6, 5) + (-1458) * mn(p, 0, 1, 5, 0, 0, 6, 3)) + ((2187) * mn(p, 0, 1, 5, 0, 0, 6, 1) + ((-243) * mn(p, 0, 0, 6, 5, 1, 0, 0) + (729) * mn(p, 0, 0, 6, 4, 1, 1, 1))))) + ((((-1215) * mn(p, 0, 0, 6, 3, 1, 2, 2) + (1458) * mn(p, 0, 0, 6, 3, 1, 2, 0)) + ((1215) * mn(p, 0, 0, 6, 2, 1, 3, 3) + ((-2916) * mn(p, 0, 0, 6, 2, 1, 3, 1) + (-729) * mn(p, 0, 0, 6, 1, 1, 4, 4)))) + (((2916) * mn(p, 0, 0, 6, 1, 1, 4, 2) + (-2187) * mn(p, 0, 0, 6, 1, 1, 4, 0)) + ((243) * mn(p, 0, 0, 6, 0, 1, 5, 5) + ((-1458) * mn(p, 0, 0, 6, 0, 1, 5, 3) + (2187) * mn(p, 0, 0, 6, 0, 1, 5, 1))))))))));
    assert(pp18 == (((((-324) * mn(p, 1, 0, 3, 2, 0, 2, 1) + (810) * mn(p, 1, 0, 3, 1, 0, 3, 2)) + ((-1944) * mn(p, 1, 0, 3, 1, 0, 3, 0) + (-162) * mn(p, 1, 0, 3, 0, 0, 4, 3))) + (((486) * mn(p, 1, 0, 3, 0, 0, 4, 1) + (1) * mn(p, 0, 4, 0, 0, 4, 0, 0)) + ((-18) * mn(p, 0, 2, 2, 2, 2, 0, 0) + ((18) * mn(p, 0, 2, 2, 1, 2, 1, 1) + (-18) * mn(p, 0, 2, 2, 0, 2, 2, 2))))) + ((((54) * mn(p, 0, 2, 2, 0, 2, 2, 0) + (81) * mn(p, 0, 0, 4, 4, 0, 0, 0)) + ((-162) * mn(p, 0, 0, 4, 3, 0, 1, 1) + ((243) * mn(p, 0, 0, 4, 2, 0, 2, 2) + (-486) * mn(p, 0, 0, 4, 2, 0, 2, 0)))) + (((-162) * mn(p, 0, 0, 4, 1, 0, 3, 3) + (486) * mn(p, 0, 0, 4, 1, 0, 3, 1)) + ((81) * mn(p, 0, 0, 4, 0, 0, 4, 4) + ((-486) * mn(p, 0, 0, 4, 0, 0, 4, 2) + (729) * mn(p, 0, 0, 4, 0, 0, 4, 0)))))));
    assert(q == ((((3) * mn(p, 2, 0, 0, 1, 1, 0, 0) + (3) * mn(p, 1, 1, 0, 2, 0, 0, 0)) + ((-3) * mn(p, 1, 1, 0, 0, 0, 2, 0) + ((-6) * mn(p, 1, 0, 1, 0, 1, 1, 0) + (1) * mn(p, 0, 2, 0, 0, 1, 1, 0)))) + (((-6) * mn(p, 0, 1, 1, 1, 0, 1, 0) + (1) * mn(p, 0, 1, 1, 0, 2, 0, 0)) + ((3) * mn(p, 0, 1, 1, 0, 0, 2, 1) + ((-3) * mn(p, 0, 0, 2, 1, 1, 0, 0) + (3) * mn(p, 0, 0, 2, 0, 1, 1, 1))))));
}

#[verifier::rlimit(100)]
proof fn acb_prod5(p: Pt)
    ensures
        (((((3) * mn(p, 2, 0, 0, 0, 1, 1, 0) + ((6) * mn(p, 1, 1, 0, 1, 0, 1, 0) + (1) * mn(p, 1, 1, 0, 0, 2, 0, 0))) + ((-3) * mn(p, 1, 1, 0, 0, 0, 2, 1) + ((6) * mn(p, 1, 0, 1, 1, 1, 0, 0) + (-6) * mn(p, 1, 0, 1, 0, 1, 1, 1)))) + (((1) * mn(p, 0, 2, 0, 1, 1, 0, 0) + ((3) * mn(p, 0, 1, 1, 2, 0, 0, 0) + (-6) * mn(p, 0, 1, 1, 1, 0, 1, 1))) + ((9) * mn(p, 0, 1, 1, 0, 0, 2, 0) + ((-3) * mn(p, 0, 0, 2, 1, 1, 0, 1) + (9) * mn(p, 0, 0, 2, 0, 1, 1, 0)))))) * (((((3) * mn(p, 2, 0, 0, 0, 1, 1, 0) + ((6) * mn(p, 1, 1, 0, 1, 0, 1, 0) + (1) * mn(p, 1, 1, 0, 0, 2, 0, 0))) + ((-3) * mn(p, 1, 1, 0, 0, 0, 2, 1) + ((6) * mn(p, 1, 0, 1, 1, 1, 0, 0) + (-6) * mn(p, 1, 0, 1, 0, 1, 1, 1)))) + (((1) * mn(p, 0, 2, 0, 1, 1, 0, 0) + ((3) * mn(p, 0, 1, 1, 2, 0, 0, 0) + (-6) * mn(p, 0, 1, 1, 1, 0, 1, 1))) + ((9) * mn(p, 0, 1, 1, 0, 0, 2, 0) + ((-3) * mn(p, 0, 0, 2, 1, 1, 0, 1) + (9) * mn(p, 0, 0, 2, 0, 1, 1, 0)))))) == (((((((9) * mn(p, 4, 0, 0, 0, 2, 2, 0) + (36) * mn(p, 3, 1, 0, 1, 1, 2, 0)) + ((6) * mn(p, 3, 1, 0, 0, 3, 1, 0) + (-18) * mn(p, 3, 1, 0, 0, 1, 3, 1))) + (((36) * mn(p, 3, 0, 1, 1, 2, 1, 0) + (-36) * mn(p, 3, 0, 1, 0, 2, 2, 1)) + ((36) * mn(p, 2, 2, 0, 2, 0, 2, 0) + (18) * mn(p, 2, 2, 0, 1, 2, 1, 0)))) + ((((-36) * mn(p, 2, 2, 0, 1, 0, 3, 1) + (1) * mn(p, 2, 2, 0, 0, 4, 0, 0)) + ((-6) * mn(p, 2, 2, 0, 0, 2, 2, 1) + (9) * mn(p, 2, 2, 0, 0, 0, 4, 2))) + (((90) * mn(p, 2, 1, 1, 2, 1, 1, 0) + (12) * mn(p, 2, 1, 1, 1, 3, 0, 0)) + ((-144) * mn(p, 2, 1, 1, 1, 1, 2, 1) + (-12) * mn(p, 2, 1, 1, 0, 3, 1, 1))))) + (((((36) * mn(p, 2, 1, 1, 0, 1, 3, 2) + (54) * mn(p, 2, 1, 1, 0, 1, 3, 0)) + ((36) * mn(p, 2, 0, 2, 2, 2, 0, 0) + (-90) * mn(p, 2, 0, 2, 1, 2, 1, 1))) + (((36) * mn(p, 2, 0, 2, 0, 2, 2, 2) + (54) * mn(p, 2, 0, 2, 0, 2, 2, 0)) + ((12) * mn(p, 1, 3, 0, 2, 1, 1, 0) + (2) * mn(p, 1, 3, 0, 1, 3, 0, 0)))) + ((((-6) * mn(p, 1, 3, 0, 1, 1, 2, 1) + (36) * mn(p, 1, 2, 1, 3, 0, 1, 0)) + ((18) * mn(p, 1, 2, 1, 2, 2, 0, 0) + (-90) * mn(p, 1, 2, 1, 2, 0, 2, 1))) + (((-24) * mn(p, 1, 2, 1, 1, 2, 1, 1) + (36) * mn(p, 1, 2, 1, 1, 0, 3, 2)) + ((108) * mn(p, 1, 2, 1, 1, 0, 3, 0) + (18) * mn(p, 1, 2, 1, 0, 2, 2, 0)))))) + ((((((-54) * mn(p, 1, 2, 1, 0, 0, 4, 1) + (36) * mn(p, 1, 1, 2, 3, 1, 0, 0)) + ((-144) * mn(p, 1, 1, 2, 2, 1, 1, 1) + (-6) * mn(p, 1, 1, 2, 1, 3, 0, 1))) + (((90) * mn(p, 1, 1, 2, 1, 1, 2, 2) + (216) * mn(p, 1, 1, 2, 1, 1, 2, 0)) + ((18) * mn(p, 1, 1, 2, 0, 3, 1, 0) + (-162) * mn(p, 1, 1, 2, 0, 1, 3, 1)))) + ((((-36) * mn(p, 1, 0, 3, 2, 2, 0, 1) + (36) * mn(p, 1, 0, 3, 1, 2, 1, 2)) + ((108) * mn(p, 1, 0, 3, 1, 2, 1, 0) + (-108) * mn(p, 1, 0, 3, 0, 2, 2, 1))) + (((1) * mn(p, 0, 4, 0, 2, 2, 0, 0) + (6) * mn(p, 0, 3, 1, 3, 1, 0, 0)) + ((-12) * mn(p, 0, 3, 1, 2, 1, 1, 1) + (18) * mn(p, 0, 3, 1, 1, 1, 2, 0))))) + (((((9) * mn(p, 0, 2, 2, 4, 0, 0, 0) + (-36) * mn(p, 0, 2, 2, 3, 0, 1, 1)) + ((-6) * mn(p, 0, 2, 2, 2, 2, 0, 1) + (36) * mn(p, 0, 2, 2, 2, 0, 2, 2))) + (((54) * mn(p, 0, 2, 2, 2, 0, 2, 0) + (18) * mn(p, 0, 2, 2, 1, 2, 1, 0)) + ((-108) * mn(p, 0, 2, 2, 1, 0, 3, 1) + (81) * mn(p, 0, 2, 2, 0, 0, 4, 0)))) + ((((-18) * mn(p, 0, 1, 3, 3, 1, 0, 1) + (36) * mn(p, 0, 1, 3, 2, 1, 1, 2)) + ((54) * mn(p, 0, 1, 3, 2, 1, 1, 0) + (-162) * mn(p, 0, 1, 3, 1, 1, 2, 1))) + (((162) * mn(p, 0, 1, 3, 0, 1, 3, 0) + (9) * mn(p, 0, 0, 4, 2, 2, 0, 2)) + ((-54) * mn(p, 0, 0, 4, 1, 2, 1, 1) + (81) * mn(p, 0, 0, 4, 0, 2, 2, 0))))))),
{
    let c0 = ((((3) * mn(p, 2, 0, 0, 0, 1, 1, 0) + ((6) * mn(p, 1, 1, 0, 1, 0, 1, 0) + (1) * mn(p, 1, 1, 0, 0, 2, 0, 0))) + ((-3) * mn(p, 1, 1, 0, 0, 0, 2, 1) + ((6) * mn(p, 1, 0, 1, 1, 1, 0, 0) + (-6) * mn(p, 1, 0, 1, 0, 1, 1, 1)))) + (((1) * mn(p, 0, 2, 0, 1, 1, 0, 0) + ((3) * mn(p, 0, 1, 1, 2, 0, 0, 0) + (-6) * mn(p, 0, 1, 1, 1, 0, 1, 1))) + ((9) * mn(p, 0, 1, 1, 0, 0, 2, 0) + ((-3) * mn(p, 0, 0, 2, 1, 1, 0, 1) + (9) * mn(p, 0, 0, 2, 0, 1, 1, 0)))));
    let cc0 = c0;
    assert(cc0 == ((((3) * mn(p, 2, 0, 0, 0, 1, 1, 0) + ((6) * mn(p, 1, 1, 0, 1, 0, 1, 0) + (1) * mn(p, 1, 1, 0, 0, 2, 0, 0))) + ((-3) * mn(p, 1, 1, 0, 0, 0, 2, 1) + ((6) * mn(p, 1, 0, 1, 1, 1, 0, 0) + (-6) * mn(p, 1, 0, 1, 0, 1, 1, 1)))) + (((1) * mn(p, 0, 2, 0, 1, 1, 0, 0) + ((3) * mn(p, 0, 1, 1, 2, 0, 0, 0) + (-6) * mn(p, 0, 1, 1, 1, 0, 1, 1))) + ((9) * mn(p, 0, 1, 1, 0, 0, 2, 0) + ((-3) * mn(p, 0, 0, 2, 1, 1, 0, 1) + (9) * mn(p, 0, 0, 2, 0, 1, 1, 0))))));
    let q = ((((3) * mn(p, 2, 0, 0, 0, 1, 1, 0) + ((6) * mn(p, 1, 1, 0, 1, 0, 1, 0) + (1) * mn(p, 1, 1, 0, 0, 2, 0, 0))) + ((-3) * mn(p, 1, 1, 0, 0, 0, 2, 1) + ((6) * mn(p, 1, 0, 1, 1, 1, 0, 0) + (-6) * mn(p, 1, 0, 1, 0, 1, 1, 1)))) + (((1) * mn(p, 0, 2, 0, 1, 1, 0, 0) + ((3) * mn(p, 0, 1, 1, 2, 0, 0, 0) + (-6) * mn(p, 0, 1, 1, 1, 0, 1, 1))) + ((9) * mn(p, 0, 1, 1, 0, 0, 2, 0) + ((-3) * mn(p, 0, 0, 2, 1, 1, 0, 1) + (9) * mn(p, 0, 0, 2, 0, 1, 1, 0)))));
    acb_prod5_c0(p);
    assert(c0 * q == (((((((9) * mn(p, 4, 0, 0, 0, 2, 2, 0) + (36) * mn(p, 3, 1, 0, 1, 1, 2, 0)) + ((6) * mn(p, 3, 1, 0, 0, 3, 1, 0) + (-18) * mn(p, 3, 1, 0, 0, 1, 3, 1))) + (((36) * mn(p, 3, 0, 1, 1, 2, 1, 0) + (-36) * mn(p, 3, 0, 1, 0, 2, 2, 1)) + ((36) * mn(p, 2, 2, 0, 2, 0, 2, 0) + (18) * mn(p, 2, 2, 0, 1, 2, 1, 0)))) + ((((-36) * mn(p, 2, 2, 0, 1, 0, 3, 1) + (1) * mn(p, 2, 2, 0, 0, 4, 0, 0)) + ((-6) * mn(p, 2, 2, 0, 0, 2, 2, 1) + (9) * mn(p, 2, 2, 0, 0, 0, 4, 2))) + (((90) * mn(p, 2, 1, 1, 2, 1, 1, 0) + (12) * mn(p, 2, 1, 1, 1, 3, 0, 0)) + ((-144) * mn(p, 2, 1, 1, 1, 1, 2, 1) + (-12) * mn(p, 2, 1, 1, 0, 3, 1, 1))))) + (((((36) * mn(p, 2, 1, 1, 0, 1, 3, 2) + (54) * mn(p, 2, 1, 1, 0, 1, 3, 0)) + ((36) * mn(p, 2, 0, 2, 2, 2, 0, 0) + (-90) * mn(p, 2, 0, 2, 1, 2, 1, 1))) + (((36) * mn(p, 2, 0, 2, 0, 2, 2, 2) + (54) * mn(p, 2, 0, 2, 0, 2, 2, 0)) + ((12) * mn(p, 1, 3, 0, 2, 1, 1, 0) + (2) * mn(p, 1, 3, 0, 1, 3, 0, 0)))) + ((((-6) * mn(p, 1, 3, 0, 1, 1, 2, 1) + (36) * mn(p, 1, 2, 1, 3, 0, 1, 0)) + ((18) * mn(p, 1, 2, 1, 2, 2, 0, 0) + (-90) * mn(p, 1, 2, 1, 2, 0, 2, 1))) + (((-24) * mn(p, 1, 2, 1, 1, 2, 1, 1) + (36) * mn(p, 1, 2, 1, 1, 0, 3, 2)) + ((108) * mn(p, 1, 2, 1, 1, 0, 3, 0) + (18) * mn(p, 1, 2, 1, 0, 2, 2, 0)))))) + ((((((-54) * mn(p, 1, 2, 1, 0, 0, 4, 1) + (36) * mn(p, 1, 1, 2, 3, 1, 0, 0)) + ((-144) * mn(p, 1, 1, 2, 2, 1, 1, 1) + (-6) * mn(p, 1, 1, 2, 1, 3, 0, 1))) + (((90) * mn(p, 1, 1, 2, 1, 1, 2, 2) + (216) * mn(p, 1, 1, 2, 1, 1, 2, 0)) + ((18) * mn(p, 1, 1, 2, 0, 3, 1, 0) + (-162) * mn(p, 1, 1, 2, 0, 1, 3, 1)))) + ((((-36) * mn(p, 1, 0, 3, 2, 2, 0, 1) + (36) * mn(p, 1, 0, 3, 1, 2, 1, 2)) + ((108) * mn(p, 1, 0, 3, 1, 2, 1, 0) + (-108) * mn(p, 1, 0, 3, 0, 2, 2, 1))) + (((1) * mn(p, 0, 4, 0, 2, 2, 0, 0) + (6) * mn(p, 0, 3, 1, 3, 1, 0, 0)) + ((-12) * mn(p, 0, 3, 1, 2, 1, 1, 1) + (18) * mn(p, 0, 3, 1, 1, 1, 2, 0))))) + (((((9) * mn(p, 0, 2, 2, 4, 0, 0, 0) + (-36) * mn(p, 0, 2, 2, 3, 0, 1, 1)) + ((-6) * mn(p, 0, 2, 2, 2, 2, 0, 1) + (36) * mn(p, 0, 2, 2, 2, 0, 2, 2))) + (((54) * mn(p, 0, 2, 2, 2, 0, 2, 0) + (18) * mn(p, 0, 2, 2, 1, 2, 1, 0)) + ((-108) * mn(p, 0, 2, 2, 1, 0, 3, 1) + (81) * mn(p, 0, 2, 2, 0, 0, 4, 0)))) + ((((-18) * mn(p, 0, 1, 3, 3, 1, 0, 1) + (36) * mn(p, 0, 1, 3, 2, 1, 1, 2)) + ((54) * mn(p, 0, 1, 3, 2, 1, 1, 0) + (-162) * mn(p, 0, 1, 3, 1, 1, 2, 1))) + (((162) * mn(p, 0, 1, 3, 0, 1, 3, 0) + (9) * mn(p, 0, 0, 4, 2, 2, 0, 2)) + ((-54) * mn(p, 0, 0, 4, 1, 2, 1, 1) + (81) * mn(p, 0, 0, 4, 0, 2, 2, 0))))))));
    assert(cc0 * q == (((((((9) * mn(p, 4, 0, 0, 0, 2, 2, 0) + (36) * mn(p, 3, 1, 0, 1, 1, 2, 0)) + ((6) * mn(p, 3, 1, 0, 0, 3, 1, 0) + (-18) * mn(p, 3, 1, 0, 0, 1, 3, 1))) + (((36) * mn(p, 3, 0, 1, 1, 2, 1, 0) + (-36) * mn(p, 3, 0, 1, 0, 2, 2, 1)) + ((36) * mn(p, 2, 2, 0, 2, 0, 2, 0) + (18) * mn(p, 2, 2, 0, 1, 2, 1, 0)))) + ((((-36) * mn(p, 2, 2, 0, 1, 0, 3, 1) + (1) * mn(p, 2, 2, 0, 0, 4, 0, 0)) + ((-6) * mn(p, 2, 2, 0, 0, 2, 2, 1) + (9) * mn(p, 2, 2, 0, 0, 0, 4, 2))) + (((90) * mn(p, 2, 1, 1, 2, 1, 1, 0) + (12) * mn(p, 2, 1, 1, 1, 3, 0, 0)) + ((-144) * mn(p, 2, 1, 1, 1, 1, 2, 1) + (-12) * mn(p, 2, 1, 1, 0, 3, 1, 1))))) + (((((36) * mn(p, 2, 1, 1, 0, 1, 3, 2) + (54) * mn(p, 2, 1, 1, 0, 1, 3, 0)) + ((36) * mn(p, 2, 0, 2, 2, 2, 0, 0) + (-90) * mn(p, 2, 0, 2, 1, 2, 1, 1))) + (((36) * mn(p, 2, 0, 2, 0, 2, 2, 2) + (54) * mn(p, 2, 0, 2, 0, 2, 2, 0)) + ((12) * mn(p, 1, 3, 0, 2, 1, 1, 0) + (2) * mn(p, 1, 3, 0, 1, 3, 0, 0)))) + ((((-6) * mn(p, 1, 3, 0, 1, 1, 2, 1) + (36) * mn(p, 1, 2, 1, 3, 0, 1, 0)) + ((18) * mn(p, 1, 2, 1, 2, 2, 0, 0) + (-90) * mn(p, 1, 2, 1, 2, 0, 2, 1))) + (((-24) * mn(p, 1, 2, 1, 1, 2, 1, 1) + (36) * mn(p, 1, 2, 1, 1, 0, 3, 2)) + ((108) * mn(p, 1, 2, 1, 1, 0, 3, 0) + (18) * mn(p, 1, 2, 1, 0, 2, 2, 0)))))) + ((((((-54) * mn(p, 1, 2, 1, 0, 0, 4, 1) + (36) * mn(p, 1, 1, 2, 3, 1, 0, 0)) + ((-144) * mn(p, 1, 1, 2, 2, 1, 1, 1) + (-6) * mn(p, 1, 1, 2, 1, 3, 0, 1))) + (((90) * mn(p, 1, 1, 2, 1, 1, 2, 2) + (216) * mn(p, 1, 1, 2, 1, 1, 2, 0)) + ((18) * mn(p, 1, 1, 2, 0, 3, 1, 0) + (-162) * mn(p, 1, 1, 2, 0, 1, 3, 1)))) + ((((-36) * mn(p, 1, 0, 3, 2, 2, 0, 1) + (36) * mn(p, 1, 0, 3, 1, 2, 1, 2)) + ((108) * mn(p, 1, 0, 3, 1, 2, 1, 0) + (-108) * mn(p, 1, 0, 3, 0, 2, 2, 1))) + (((1) * mn(p, 0, 4, 0, 2, 2, 0, 0) + (6) * mn(p, 0, 3, 1, 3, 1, 0, 0)) + ((-12) * mn(p, 0, 3, 1, 2, 1, 1, 1) + (18) * mn(p, 0, 3, 1, 1, 1, 2, 0))))) + (((((9) * mn(p, 0, 2, 2, 4, 0, 0, 0) + (-36) * mn(p, 0, 2, 2, 3, 0, 1, 1)) + ((-6) * mn(p, 0, 2, 2, 2, 2, 0, 1) + (36) * mn(p, 0, 2, 2, 2, 0, 2, 2))) + (((54) * mn(p, 0, 2, 2, 2, 0, 2, 0) + (18) * mn(p, 0, 2, 2, 1, 2, 1, 0)) + ((-108) * mn(p, 0, 2, 2, 1, 0, 3, 1) + (81) * mn(p, 0, 2, 2, 0, 0, 4, 0)))) + ((((-18) * mn(p, 0, 1, 3, 3, 1, 0, 1) + (36) * mn(p, 0, 1, 3, 2, 1, 1, 2)) + ((54) * mn(p, 0, 1, 3, 2, 1, 1, 0) + (-162) * mn(p, 0, 1, 3, 1, 1, 2, 1))) + (((162) * mn(p, 0, 1, 3, 0, 1, 3, 0) + (9) * mn(p, 0, 0, 4, 2, 2, 0, 2)) + ((-54) * mn(p, 0, 0, 4, 1, 2, 1, 1) + (81) * mn(p, 0, 0, 4, 0, 2, 2, 0))))))));
}

#[verifier::rlimit(100)]
proof fn acb_prod5_c0(p: Pt)
    ensures
        (((((3) * mn(p, 2, 0, 0, 0, 1, 1, 0) + ((6) * mn(p, 1, 1, 0, 1, 0, 1, 0) + (1) * mn(p, 1, 1, 0, 0, 2, 0, 0))) + ((-3) * mn(p, 1, 1, 0, 0, 0, 2, 1) + ((6) * mn(p, 1, 0, 1, 1, 1, 0, 0) + (-6) * mn(p, 1, 0, 1, 0, 1, 1, 1)))) + (((1) * mn(p, 0, 2, 0, 1, 1, 0, 0) + ((3) * mn(p, 0, 1, 1, 2, 0, 0, 0) + (-6) * mn(p, 0, 1, 1, 1, 0, 1, 1))) + ((9) * mn(p, 0, 1, 1, 0, 0, 2, 0) + ((-3) * mn(p, 0, 0, 2, 1, 1, 0, 1) + (9) * mn(p, 0, 0, 2, 0, 1, 1, 0)))))) * (((((3) * mn(p, 2, 0, 0, 0, 1, 1, 0) + ((6) * mn(p, 1, 1, 0, 1, 0, 1, 0) + (1) * mn(p, 1, 1, 0, 0, 2, 0, 0))) + ((-3) * mn(p, 1, 1, 0, 0, 0, 2, 1) + ((6) * mn(p, 1, 0, 1, 1, 1, 0, 0) + (-6) * mn(p, 1, 0, 1, 0, 1, 1, 1)))) + (((1) * mn(p, 0, 2, 0, 1, 1, 0, 0) + ((3) * mn(p, 0, 1, 1, 2, 0, 0, 0) + (-6) * mn(p, 0, 1, 1, 1, 0, 1, 1))) + ((9) * mn(p, 0, 1, 1, 0, 0, 2, 0) + ((-3) * mn(p, 0, 0, 2, 1, 1, 0, 1) + (9) * mn(p, 0, 0, 2, 0, 1, 1, 0)))))) == (((((((9) * mn(p, 4, 0, 0, 0, 2, 2, 0) + (36) * mn(p, 3, 1, 0, 1, 1, 2, 0)) + ((6) * mn(p, 3, 1, 0, 0, 3, 1, 0) + (-18) * mn(p, 3, 1, 0, 0, 1, 3, 1))) + (((36) * mn(p, 3, 0, 1, 1, 2, 1, 0) + (-36) * mn(p, 3, 0, 1, 0, 2, 2, 1)) + ((36) * mn(p, 2, 2, 0, 2, 0, 2, 0) + (18) * mn(p, 2, 2, 0, 1, 2, 1, 0)))) + ((((-36) * mn(p, 2, 2, 0, 1, 0, 3, 1) + (1) * mn(p, 2, 2, 0, 0, 4, 0, 0)) + ((-6) * mn(p, 2, 2, 0, 0, 2, 2, 1) + (9) * mn(p, 2, 2, 0, 0, 0, 4, 2))) + (((90) * mn(p, 2, 1, 1, 2, 1, 1, 0) + (12) * mn(p, 2, 1, 1, 1, 3, 0, 0)) + ((-144) * mn(p, 2, 1, 1, 1, 1, 2, 1) + (-12) * mn(p, 2, 1, 1, 0, 3, 1, 1))))) + (((((36) * mn(p, 2, 1, 1, 0, 1, 3, 2) + (54) * mn(p, 2, 1, 1, 0, 1, 3, 0)) + ((36) * mn(p, 2, 0, 2, 2, 2, 0, 0) + (-90) * mn(p, 2, 0, 2, 1, 2, 1, 1))) + (((36) * mn(p, 2, 0, 2, 0, 2, 2, 2) + (54) * mn(p, 2, 0, 2, 0, 2, 2, 0)) + ((12) * mn(p, 1, 3, 0, 2, 1, 1, 0) + (2) * mn(p, 1, 3, 0, 1, 3, 0, 0)))) + ((((-6) * mn(p, 1, 3, 0, 1, 1, 2, 1) + (36) * mn(p, 1, 2, 1, 3, 0, 1, 0)) + ((18) * mn(p, 1, 2, 1, 2, 2, 0, 0) + (-90) * mn(p, 1, 2, 1, 2, 0, 2, 1))) + (((-24) * mn(p, 1, 2, 1, 1, 2, 1, 1) + (36) * mn(p, 1, 2, 1, 1, 0, 3, 2)) + ((108) * mn(p, 1, 2, 1, 1, 0, 3, 0) + (18) * mn(p, 1, 2, 1, 0, 2, 2, 0)))))) + ((((((-54) * mn(p, 1, 2, 1, 0, 0, 4, 1) + (36) * mn(p, 1, 1, 2, 3, 1, 0, 0)) + ((-144) * mn(p, 1, 1, 2, 2, 1, 1, 1) + (-6) * mn(p, 1, 1, 2, 1, 3, 0, 1))) + (((90) * mn(p, 1, 1, 2, 1, 1, 2, 2) + (216) * mn(p, 1, 1, 2, 1, 1, 2, 0)) + ((18) * mn(p, 1, 1, 2, 0, 3, 1, 0) + (-162) * mn(p, 1, 1, 2, 0, 1, 3, 1)))) + ((((-36) * mn(p, 1, 0, 3, 2, 2, 0, 1) + (36) * mn(p, 1, 0, 3, 1, 2, 1, 2)) + ((108) * mn(p, 1, 0, 3, 1, 2, 1, 0) + (-108) * mn(p, 1, 0, 3, 0, 2, 2, 1))) + (((1) * mn(p, 0, 4, 0, 2, 2, 0, 0) + (6) * mn(p, 0, 3, 1, 3, 1, 0, 0)) + ((-12) * mn(p, 0, 3, 1, 2, 1, 1, 1) + (18) * mn(p, 0, 3, 1, 1, 1, 2, 0))))) + (((((9) * mn(p, 0, 2, 2, 4, 0, 0, 0) + (-36) * mn(p, 0, 2, 2, 3, 0, 1, 1)) + ((-6) * mn(p, 0, 2, 2, 2, 2, 0, 1) + (36) * mn(p, 0, 2, 2, 2, 0, 2, 2))) + (((54) * mn(p, 0, 2, 2, 2, 0, 2, 0) + (18) * mn(p, 0, 2, 2, 1, 2, 1, 0)) + ((-108) * mn(p, 0, 2, 2, 1, 0, 3, 1) + (81) * mn(p, 0, 2, 2, 0, 0, 4, 0)))) + ((((-18) * mn(p, 0, 1, 3, 3, 1, 0, 1) + (36) * mn(p, 0, 1, 3, 2, 1, 1, 2)) + ((54) * mn(p, 0, 1, 3, 2, 1, 1, 0) + (-162) * mn(p, 0, 1, 3, 1, 1, 2, 1))) + (((162) * mn(p, 0, 1, 3, 0, 1, 3, 0) + (9) * mn(p, 0, 0, 4, 2, 2, 0, 2)) + ((-54) * mn(p, 0, 0, 4, 1, 2, 1, 1) + (81) * mn(p, 0, 0, 4, 0, 2, 2, 0))))))),
{
    let t0 = (3) * mn(p, 2, 0, 0, 0, 1, 1, 0);
    let t1 = (6) * mn(p, 1, 1, 0, 1, 0, 1, 0);
    let t2 = (1) * mn(p, 1, 1, 0, 0, 2, 0, 0);
    let t3 = (-3) * mn(p, 1, 1, 0, 0, 0, 2, 1);
    let t4 = (6) * mn(p, 1, 0, 1, 1, 1, 0, 0);
    let t5 = (-6) * mn(p, 1, 0, 1, 0, 1, 1, 1);
    let t6 = (1) * mn(p, 0, 2, 0, 1, 1, 0, 0);
    let t7 = (3) * mn(p, 0, 1, 1, 2, 0, 0, 0);
    let t8 = (-6) * mn(p, 0, 1, 1, 1, 0, 1, 1);
    let t9 = (9) * mn(p, 0, 1, 1, 0, 0, 2, 0);
    let t10 = (-3) * mn(p, 0, 0, 2, 1, 1, 0, 1);
    let t11 = (9) * mn(p, 0, 0, 2, 0, 1, 1, 0);
    let s0 = (3) * mn(p, 2, 0, 0, 0, 1, 1, 0);
    let s1 = (6) * mn(p, 1, 1, 0, 1, 0, 1, 0);
    let s2 = (1) * mn(p, 1, 1, 0, 0, 2, 0, 0);
    let s3 = (-3) * mn(p, 1, 1, 0, 0, 0, 2, 1);
    let s4 = (6) * mn(p, 1, 0, 1, 1, 1, 0, 0);
    let s5 = (-6) * mn(p, 1, 0, 1, 0, 1, 1, 1);
    let s6 = (1) * mn(p, 0, 2, 0, 1, 1, 0, 0);
    let s7 = (3) * mn(p, 0, 1, 1, 2, 0, 0, 0);
    let s8 = (-6) * mn(p, 0, 1, 1, 1, 0, 1, 1);
    let s9 = (9) * mn(p, 0, 1, 1, 0, 0, 2, 0);
    let s10 = (-3) * mn(p, 0, 0, 2, 1, 1, 0, 1);
    let s11 = (9) * mn(p, 0, 0, 2, 0, 1, 1, 0);
    let pp0 = t0;
    let pp1 = pp0 + t1;
    let pp2 = pp1 + t2;
    let pp3 = pp2 + t3;
    let pp4 = pp3 + t4;
    let pp5 = pp4 + t5;
    let pp6 = pp5 + t6;
    let pp7 = pp6 + t7;
    let pp8 = pp7 + t8;
    let pp9 = pp8 + t9;
    let pp10 = pp9 + t10;
    let pp11 = pp10 + t11;
    let qq0 = s0;
    let qq1 = qq0 + s1;
    let qq2 = qq1 + s2;
    let qq3 = qq2 + s3;
    let qq4 = qq3 + s4;
    let qq5 = qq4 + s5;
    let qq6 = qq5 + s6;
    let qq7 = qq6 + s7;
    let qq8 = qq7 + s8;
    let qq9 = qq8 + s9;
    let qq10 = qq9 + s10;
    let qq11 = qq10 + s11;
    let q = qq11;
    lemma_mul_is_distributive_add_other_way(q, pp0, t1);
    lemma_mul_is_distributive_add_other_way(q, pp1, t2);
    lemma_mul_is_distributive_add_other_way(q, pp2, t3);
    lemma_mul_is_distributive_add_other_way(q, pp3, t4);
    lemma_mul_is_distributive_add_other_way(q, pp4, t5);
    lemma_mul_is_distributive_add_other_way(q, pp5, t6);
    lemma_mul_is_distributive_add_other_way(q, pp6, t7);
    lemma_mul_is_distributive_add_other_way(q, pp7, t8);
    lemma_mul_is_distributive_add_other_way(q, pp8, t9);
    lemma_mul_is_distributive_add_other_way(q, pp9, t10);
    lemma_mul_is_distributive_add_other_way(q, pp10, t11);
    lemma_mul_is_distributive_add(t0, qq0, s1);
    lemma_mul_is_distributive_add(t0, qq1, s2);
    lemma_mul_is_distributive_add(t0, qq2, s3);
    lemma_mul_is_distributive_add(t0, qq3, s4);
    lemma_mul_is_distributive_add(t0, qq4, s5);
    lemma_mul_is_distributive_add(t0, qq5, s6);
    lemma_mul_is_distributive_add(t0, qq6, s7);
    lemma_mul_is_distributive_add(t0, qq7, s8);
    lemma_mul_is_distributive_add(t0, qq8, s9);
    lemma_mul_is_distributive_add(t0, qq9, s10);
    lemma_mul_is_distributive_add(t0, qq10, s11);
    lemma_mul_is_distributive_add(t1, qq0, s1);
    lemma_mul_is_distributive_add(t1, qq1, s2);
    lemma_mul_is_distributive_add(t1, qq2, s3);
    lemma_mul_is_distributive_add(t1, qq3, s4);
    lemma_mul_is_distributive_add(t1, qq4, s5);
    lemma_mul_is_distributive_add(t1, qq5, s6);
    lemma_mul_is_distributive_add(t1, qq6, s7);
    lemma_mul_is_distributive_add(t1, qq7, s8);
    lemma_mul_is_distributive_add(t1, qq8, s9);
    lemma_mul_is_distributive_add(t1, qq9, s10);
    lemma_mul_is_distributive_add(t1, qq10, s11);
    lemma_mul_is_distributive_add(t2, qq0, s1);
    lemma_mul_is_distributive_add(t2, qq1, s2);
    lemma_mul_is_distributive_add(t2, qq2, s3);
    lemma_mul_is_distributive_add(t2, qq3, s4);
    lemma_mul_is_distributive_add(t2, qq4, s5);
    lemma_mul_is_distributive_add(t2, qq5, s6);
    lemma_mul_is_distributive_add(t2, qq6, s7);
    lemma_mul_is_distributive_add(t2, qq7, s8);
    lemma_mul_is_distributive_add(t2, qq8, s9);
    lemma_mul_is_distributive_add(t2, qq9, s10);
    lemma_mul_is_distributive_add(t2, qq10, s11);
    lemma_mul_is_distributive_add(t3, qq0, s1);
    lemma_mul_is_distributive_add(t3, qq1, s2);
    lemma_mul_is_distributive_add(t3, qq2, s3);
    lemma_mul_is_distributive_add(t3, qq3, s4);
    lemma_mul_is_distributive_add(t3, qq4, s5);
    lemma_mul_is_distributive_add(t3, qq5, s6);
    lemma_mul_is_distributive_add(t3, qq6, s7);
    lemma_mul_is_distributive_add(t3, qq7, s8);
    lemma_mul_is_distributive_add(t3, qq8, s9);
    lemma_mul_is_distributive_add(t3, qq9, s10);
    lemma_mul_is_distributive_add(t3, qq10, s11);
    lemma_mul_is_distributive_add(t4, qq0, s1);
    lemma_mul_is_distributive_add(t4, qq1, s2);
    lemma_mul_is_distributive_add(t4, qq2, s3);
    lemma_mul_is_distributive_add(t4, qq3, s4);
    lemma_mul_is_distributive_add(t4, qq4, s5);
    lemma_mul_is_distributive_add(t4, qq5, s6);
    lemma_mul_is_distributive_add(t4, qq6, s7);
    lemma_mul_is_distributive_add(t4, qq7, s8);
    lemma_mul_is_distributive_add(t4, qq8, s9);
    lemma_mul_is_distributive_add(t4, qq9, s10);
    lemma_mul_is_distributive_add(t4, qq10, s11);
    lemma_mul_is_distributive_add(t5, qq0, s1);
    lemma_mul_is_distributive_add(t5, qq1, s2);
    lemma_mul_is_distributive_add(t5, qq2, s3);
    lemma_mul_is_distributive_add(t5, qq3, s4);
    lemma_mul_is_distributive_add(t5, qq4, s5);
    lemma_mul_is_distributive_add(t5, qq5, s6);
    lemma_mul_is_distributive_add(t5, qq6, s7);
    lemma_mul_is_distributive_add(t5, qq7, s8);
    lemma_mul_is_distributive_add(t5, qq8, s9);
    lemma_mul_is_distributive_add(t5, qq9, s10);
    lemma_mul_is_distributive_add(t5, qq10, s11);
    lemma_mul_is_distributive_add(t6, qq0, s1);
    lemma_mul_is_distributive_add(t6, qq1, s2);
    lemma_mul_is_distributive_add(t6, qq2, s3);
    lemma_mul_is_distributive_add(t6, qq3, s4);
    lemma_mul_is_distributive_add(t6, qq4, s5);
    lemma_mul_is_distributive_add(t6, qq5, s6);
    lemma_mul_is_distributive_add(t6, qq6, s7);
    lemma_mul_is_distributive_add(t6, qq7, s8);
    lemma_mul_is_distributive_add(t6, qq8, s9);
    lemma_mul_is_distributive_add(t6, qq9, s10);
    lemma_mul_is_distributive_add(t6, qq10, s11);
    lemma_mul_is_distributive_add(t7, qq0, s1);
    lemma_mul_is_distributive_add(t7, qq1, s2);
    lemma_mul_is_distributive_add(t7, qq2, s3);
    lemma_mul_is_distributive_add(t7, qq3, s4);
    lemma_mul_is_distributive_add(t7, qq4, s5);
    lemma_mul_is_distributive_add(t7, qq5, s6);
    lemma_mul_is_distributive_add(t7, qq6, s7);
    lemma_mul_is_distributive_add(t7, qq7, s8);
    lemma_mul_is_distributive_add(t7, qq8, s9);
    lemma_mul_is_distributive_add(t7, qq9, s10);
    lemma_mul_is_distributive_add(t7, qq10, s11);
    lemma_mul_is_distributive_add(t8, qq0, s1);
    lemma_mul_is_distributive_add(t8, qq1, s2);
    lemma_mul_is_distributive_add(t8, qq2, s3);
    lemma_mul_is_distributive_add(t8, qq3, s4);
    lemma_mul_is_distributive_add(t8, qq4, s5);
    lemma_mul_is_distributive_add(t8, qq5, s6);
    lemma_mul_is_distributive_add(t8, qq6, s7);
    lemma_mul_is_distributive_add(t8, qq7, s8);
    lemma_mul_is_distributive_add(t8, qq8, s9);
    lemma_mul_is_distributive_add(t8, qq9, s10);
    lemma_mul_is_distributive_add(t8, qq10, s11);
    lemma_mul_is_distributive_add(t9, qq0, s1);
    lemma_mul_is_distributive_add(t9, qq1, s2);
    lemma_mul_is_distributive_add(t9, qq2, s3);
    lemma_mul_is_distributive_add(t9, qq3, s4);
    lemma_mul_is_distributive_add(t9, qq4, s5);
    lemma_mul_is_distributive_add(t9, qq5, s6);
    lemma_mul_is_distributive_add(t9, qq6, s7);
    lemma_mul_is_distributive_add(t9, qq7, s8);
    lemma_mul_is_distributive_add(t9, qq8, s9);
    lemma_mul_is_distributive_add(t9, qq9, s10);
    lemma_mul_is_distributive_add(t9, qq10, s11);
    lemma_mul_is_distributive_add(t10, qq0, s1);
    lemma_mul_is_distributive_add(t10, qq1, s2);
    lemma_mul_is_distributive_add(t10, qq2, s3);
    lemma_mul_is_distributive_add(t10, qq3, s4);
    lemma_mul_is_distributive_add(t10, qq4, s5);
    lemma_mul_is_distributive_add(t10, qq5, s6);
    lemma_mul_is_distributive_add(t10, qq6, s7);
    lemma_mul_is_distributive_add(t10, qq7, s8);
    lemma_mul_is_distributive_add(t10, qq8, s9);
    lemma_mul_is_distributive_add(t10, qq9, s10);
    lemma_mul_is_distributive_add(t10, qq10, s11);
    lemma_mul_is_distributive_add(t11, qq0, s1);
    lemma_mul_is_distributive_add(t11, qq1, s2);
    lemma_mul_is_distributive_add(t11, qq2, s3);
    lemma_mul_is_distributive_add(t11, qq3, s4);
    lemma_mul_is_distributive_add(t11, qq4, s5);
    lemma_mul_is_distributive_add(t11, qq5, s6);
    lemma_mul_is_distributive_add(t11, qq6, s7);
    lemma_mul_is_distributive_add(t11, qq7, s8);
    lemma_mul_is_distributive_add(t11, qq8, s9);
    lemma_mul_is_distributive_add(t11, qq9, s10);
    lemma_mul_is_distributive_add(t11, qq10, s11);
    lemma_tm(p, 3, 2, 0, 0, 0, 1, 1, 0, 3, 2, 0, 0, 0, 1, 1, 0);
    assert(t0 * s0 == (9) * mn(p, 4, 0, 0, 0, 2, 2, 0));
    lemma_tm(p, 3, 2, 0, 0, 0, 1, 1, 0, 6, 1, 1, 0, 1, 0, 1, 0);
    assert(t0 * s1 == (18) * mn(p, 3, 1, 0, 1, 1, 2, 0));
    lemma_tm(p, 3, 2, 0, 0, 0, 1, 1, 0, 1, 1, 1, 0, 0, 2, 0, 0);
    assert(t0 * s2 == (3) * mn(p, 3, 1, 0, 0, 3, 1, 0));
    lemma_tm(p, 3, 2, 0, 0, 0, 1, 1, 0, -3, 1, 1, 0, 0, 0, 2, 1);
    assert(t0 * s3 == (-9) * mn(p, 3, 1, 0, 0, 1, 3, 1));
    lemma_tm(p, 3, 2, 0, 0, 0, 1, 1, 0, 6, 1, 0, 1, 1, 1, 0, 0);
    assert(t0 * s4 == (18) * mn(p, 3, 0, 1, 1, 2, 1, 0));
    lemma_tm(p, 3, 2, 0, 0, 0, 1, 1, 0, -6, 1, 0, 1, 0, 1, 1, 1);
    assert(t0 * s5 == (-18) * mn(p, 3, 0, 1, 0, 2, 2, 1));
    lemma_tm(p, 3, 2, 0, 0, 0, 1, 1, 0, 1, 0, 2, 0, 1, 1, 0, 0);
    assert(t0 * s6 == (3) * mn(p, 2, 2, 0, 1, 2, 1, 0));
    lemma_tm(p, 3, 2, 0, 0, 0, 1, 1, 0, 3, 0, 1, 1, 2, 0, 0, 0);
    assert(t0 * s7 == (9) * mn(p, 2, 1, 1, 2, 1, 1, 0));
    lemma_tm(p, 3, 2, 0, 0, 0, 1, 1, 0, -6, 0, 1, 1, 1, 0, 1, 1);
    assert(t0 * s8 == (-18) * mn(p, 2, 1, 1, 1, 1, 2, 1));
    lemma_tm(p, 3, 2, 0, 0, 0, 1, 1, 0, 9, 0, 1, 1, 0, 0, 2, 0);
    assert(t0 * s9 == (27) * mn(p, 2, 1, 1, 0, 1, 3, 0));
    lemma_tm(p, 3, 2, 0, 0, 0, 1, 1, 0, -3, 0, 0, 2, 1, 1, 0, 1);
    assert(t0 * s10 == (-9) * mn(p, 2, 0, 2, 1, 2, 1, 1));
    lemma_tm(p, 3, 2, 0, 0, 0, 1, 1, 0, 9, 0, 0, 2, 0, 1, 1, 0);
    assert(t0 * s11 == (27) * mn(p, 2, 0, 2, 0, 2, 2, 0));
    assert(t0 * q == (9) * mn(p, 4, 0, 0, 0, 2, 2, 0) + (18) * mn(p, 3, 1, 0, 1, 1, 2, 0) + (3) * mn(p, 3, 1, 0, 0, 3, 1, 0) + (-9) * mn(p, 3, 1, 0, 0, 1, 3, 1) + (18) * mn(p, 3, 0, 1, 1, 2, 1, 0) + (-18) * mn(p, 3, 0, 1, 0, 2, 2, 1) + (3) * mn(p, 2, 2, 0, 1, 2, 1, 0) + (9) * mn(p, 2, 1, 1, 2, 1, 1, 0) + (-18) * mn(p, 2, 1, 1, 1, 1, 2, 1) + (27) * mn(p, 2, 1, 1, 0, 1, 3, 0) + (-9) * mn(p, 2, 0, 2, 1, 2, 1, 1) + (27) * mn(p, 2, 0, 2, 0, 2, 2, 0));
    lemma_tm(p, 6, 1, 1, 0, 1, 0, 1, 0, 3, 2, 0, 0, 0, 1, 1, 0);
    assert(t1 * s0 == (18) * mn(p, 3, 1, 0, 1, 1, 2, 0));
    lemma_tm(p, 6, 1, 1, 0, 1, 0, 1, 0, 6, 1, 1, 0, 1, 0, 1, 0);
    assert(t1 * s1 == (36) * mn(p, 2, 2, 0, 2, 0, 2, 0));
    lemma_tm(p, 6, 1, 1, 0, 1, 0, 1, 0, 1, 1, 1, 0, 0, 2, 0, 0);
    assert(t1 * s2 == (6) * mn(p, 2, 2, 0, 1, 2, 1, 0));
    lemma_tm(p, 6, 1, 1, 0, 1, 0, 1, 0, -3, 1, 1, 0, 0, 0, 2, 1);
    assert(t1 * s3 == (-18) * mn(p, 2, 2, 0, 1, 0, 3, 1));
    lemma_tm(p, 6, 1, 1, 0, 1, 0, 1, 0, 6, 1, 0, 1, 1, 1, 0, 0);
    assert(t1 * s4 == (36) * mn(p, 2, 1, 1, 2, 1, 1, 0));
    lemma_tm(p, 6, 1, 1, 0, 1, 0, 1, 0, -6, 1, 0, 1, 0, 1, 1, 1);
    assert(t1 * s5 == (-36) * mn(p, 2, 1, 1, 1, 1, 2, 1));
    lemma_tm(p, 6, 1, 1, 0, 1, 0, 1, 0, 1, 0, 2, 0, 1, 1, 0, 0);
    assert(t1 * s6 == (6) * mn(p, 1, 3, 0, 2, 1, 1, 0));
    lemma_tm(p, 6, 1, 1, 0, 1, 0, 1, 0, 3, 0, 1, 1, 2, 0, 0, 0);
    assert(t1 * s7 == (18) * mn(p, 1, 2, 1, 3, 0, 1, 0));
    lemma_tm(p, 6, 1, 1, 0, 1, 0, 1, 0, -6, 0, 1, 1, 1, 0, 1, 1);
    assert(t1 * s8 == (-36) * mn(p, 1, 2, 1, 2, 0, 2, 1));
    lemma_tm(p, 6, 1, 1, 0, 1, 0, 1, 0, 9, 0, 1, 1, 0, 0, 2, 0);
    assert(t1 * s9 == (54) * mn(p, 1, 2, 1, 1, 0, 3, 0));
    lemma_tm(p, 6, 1, 1, 0, 1, 0, 1, 0, -3, 0, 0, 2, 1, 1, 0, 1);
    assert(t1 * s10 == (-18) * mn(p, 1, 1, 2, 2, 1, 1, 1));
    lemma_tm(p, 6, 1, 1, 0, 1, 0, 1, 0, 9, 0, 0, 2, 0, 1, 1, 0);
    assert(t1 * s11 == (54) * mn(p, 1, 1, 2, 1, 1, 2, 0));
    assert(t1 * q == (18) * mn(p, 3, 1, 0, 1, 1, 2, 0) + (36) * mn(p, 2, 2, 0, 2, 0, 2, 0) + (6) * mn(p, 2, 2, 0, 1, 2, 1, 0) + (-18) * mn(p, 2, 2, 0, 1, 0, 3, 1) + (36) * mn(p, 2, 1, 1, 2, 1, 1, 0) + (-36) * mn(p, 2, 1, 1, 1, 1, 2, 1) + (6) * mn(p, 1, 3, 0, 2, 1, 1, 0) + (18) * mn(p, 1, 2, 1, 3, 0, 1, 0) + (-36) * mn(p, 1, 2, 1, 2, 0, 2, 1) + (54) * mn(p, 1, 2, 1, 1, 0, 3, 0) + (-18) * mn(p, 1, 1, 2, 2, 1, 1, 1) + (54) * mn(p, 1, 1, 2, 1, 1, 2, 0));
    lemma_tm(p, 1, 1, 1, 0, 0, 2, 0, 0, 3, 2, 0, 0, 0, 1, 1, 0);
    assert(t2 * s0 == (3) * mn(p, 3, 1, 0, 0, 3, 1, 0));
    lemma_tm(p, 1, 1, 1, 0, 0, 2, 0, 0, 6, 1, 1, 0, 1, 0, 1, 0);
    assert(t2 * s1 == (6) * mn(p, 2, 2, 0, 1, 2, 1, 0));
    lemma_tm(p, 1, 1, 1, 0, 0, 2, 0, 0, 1, 1, 1, 0, 0, 2, 0, 0);
    assert(t2 * s2 == (1) * mn(p, 2, 2, 0, 0, 4, 0, 0));
    lemma_tm(p, 1, 1, 1, 0, 0, 2, 0, 0, -3, 1, 1, 0, 0, 0, 2, 1);
    assert(t2 * s3 == (-3) * mn(p, 2, 2, 0, 0, 2, 2, 1));
    lemma_tm(p, 1, 1, 1, 0, 0, 2, 0, 0, 6, 1, 0, 1, 1, 1, 0, 0);
    assert(t2 * s4 == (6) * mn(p, 2, 1, 1, 1, 3, 0, 0));
    lemma_tm(p, 1, 1, 1, 0, 0, 2, 0, 0, -6, 1, 0, 1, 0, 1, 1, 1);
    assert(t2 * s5 == (-6) * mn(p, 2, 1, 1, 0, 3, 1, 1));
    lemma_tm(p, 1, 1, 1, 0, 0, 2, 0, 0, 1, 0, 2, 0, 1, 1, 0, 0);
    assert(t2 * s6 == (1) * mn(p, 1, 3, 0, 1, 3, 0, 0));
    lemma_tm(p, 1, 1, 1, 0, 0, 2, 0, 0, 3, 0, 1, 1, 2, 0, 0, 0);
    assert(t2 * s7 == (3) * mn(p, 1, 2, 1, 2, 2, 0, 0));
    lemma_tm(p, 1, 1, 1, 0, 0, 2, 0, 0, -6, 0, 1, 1, 1, 0, 1, 1);
    assert(t2 * s8 == (-6) * mn(p, 1, 2, 1, 1, 2, 1, 1));
    lemma_tm(p, 1, 1, 1, 0, 0, 2, 0, 0, 9, 0, 1, 1, 0, 0, 2, 0);
    assert(t2 * s9 == (9) * mn(p, 1, 2, 1, 0, 2, 2, 0));
    lemma_tm(p, 1, 1, 1, 0, 0, 2, 0, 0, -3, 0, 0, 2, 1, 1, 0, 1);
    assert(t2 * s10 == (-3) * mn(p, 1, 1, 2, 1, 3, 0, 1));
    lemma_tm(p, 1, 1, 1, 0, 0, 2, 0, 0, 9, 0, 0, 2, 0, 1, 1, 0);
    assert(t2 * s11 == (9) * mn(p, 1, 1, 2, 0, 3, 1, 0));
    assert(t2 * q == (3) * mn(p, 3, 1, 0, 0, 3, 1, 0) + (6) * mn(p, 2, 2, 0, 1, 2, 1, 0) + (1) * mn(p, 2, 2, 0, 0, 4, 0, 0) + (-3) * mn(p, 2, 2, 0, 0, 2, 2, 1) + (6) * mn(p, 2, 1, 1, 1, 3, 0, 0) + (-6) * mn(p, 2, 1, 1, 0, 3, 1, 1) + (1) * mn(p, 1, 3, 0, 1, 3, 0, 0) + (3) * mn(p, 1, 2, 1, 2, 2, 0, 0) + (-6) * mn(p, 1, 2, 1, 1, 2, 1, 1) + (9) * mn(p, 1, 2, 1, 0, 2, 2, 0) + (-3) * mn(p, 1, 1, 2, 1, 3, 0, 1) + (9) * mn(p, 1, 1, 2, 0, 3, 1, 0));
    lemma_tm(p, -3, 1, 1, 0, 0, 0, 2, 1, 3, 2, 0, 0, 0, 1, 1, 0);
    assert(t3 * s0 == (-9) * mn(p, 3, 1, 0, 0, 1, 3, 1));
    lemma_tm(p, -3, 1, 1, 0, 0, 0, 2, 1, 6, 1, 1, 0, 1, 0, 1, 0);
    assert(t3 * s1 == (-18) * mn(p, 2, 2, 0, 1, 0, 3, 1));
    lemma_tm(p, -3, 1, 1, 0, 0, 0, 2, 1, 1, 1, 1, 0, 0, 2, 0, 0);
    assert(t3 * s2 == (-3) * mn(p, 2, 2, 0, 0, 2, 2, 1));
    lemma_tm(p, -3, 1, 1, 0, 0, 0, 2, 1, -3, 1, 1, 0, 0, 0, 2, 1);
    assert(t3 * s3 == (9) * mn(p, 2, 2, 0, 0, 0, 4, 2));
    lemma_tm(p, -3, 1, 1, 0, 0, 0, 2, 1, 6, 1, 0, 1, 1, 1, 0, 0);
    assert(t3 * s4 == (-18) * mn(p, 2, 1, 1, 1, 1, 2, 1));
    lemma_tm(p, -3, 1, 1, 0, 0, 0, 2, 1, -6, 1, 0, 1, 0, 1, 1, 1);
    assert(t3 * s5 == (18) * mn(p, 2, 1, 1, 0, 1, 3, 2));
    lemma_tm(p, -3, 1, 1, 0, 0, 0, 2, 1, 1, 0, 2, 0, 1, 1, 0, 0);
    assert(t3 * s6 == (-3) * mn(p, 1, 3, 0, 1, 1, 2, 1));
    lemma_tm(p, -3, 1, 1, 0, 0, 0, 2, 1, 3, 0, 1, 1, 2, 0, 0, 0);
    assert(t3 * s7 == (-9) * mn(p, 1, 2, 1, 2, 0, 2, 1));
    lemma_tm(p, -3, 1, 1, 0, 0, 0, 2, 1, -6, 0, 1, 1, 1, 0, 1, 1);
    assert(t3 * s8 == (18) * mn(p, 1, 2, 1, 1, 0, 3, 2));
    lemma_tm(p, -3, 1, 1, 0, 0, 0, 2, 1, 9, 0, 1, 1, 0, 0, 2, 0);
    assert(t3 * s9 == (-27) * mn(p, 1, 2, 1, 0, 0, 4, 1));
    lemma_tm(p, -3, 1, 1, 0, 0, 0, 2, 1, -3, 0, 0, 2, 1, 1, 0, 1);
    assert(t3 * s10 == (9) * mn(p, 1, 1, 2, 1, 1, 2, 2));
    lemma_tm(p, -3, 1, 1, 0, 0, 0, 2, 1, 9, 0, 0, 2, 0, 1, 1, 0);
    assert(t3 * s11 == (-27) * mn(p, 1, 1, 2, 0, 1, 3, 1));
    assert(t3 * q == (-9) * mn(p, 3, 1, 0, 0, 1, 3, 1) + (-18) * mn(p, 2, 2, 0, 1, 0, 3, 1) + (-3) * mn(p, 2, 2, 0, 0, 2, 2, 1) + (9) * mn(p, 2, 2, 0, 0, 0, 4, 2) + (-18) * mn(p, 2, 1, 1, 1, 1, 2, 1) + (18) * mn(p, 2, 1, 1, 0, 1, 3, 2) + (-3) * mn(p, 1, 3, 0, 1, 1, 2, 1) + (-9) * mn(p, 1, 2, 1, 2, 0, 2, 1) + (18) * mn(p, 1, 2, 1, 1, 0, 3, 2) + (-27) * mn(p, 1, 2, 1, 0, 0, 4, 1) + (9) * mn(p, 1, 1, 2, 1, 1, 2, 2) + (-27) * mn(p, 1, 1, 2, 0, 1, 3, 1));
    lemma_tm(p, 6, 1, 0, 1, 1, 1, 0, 0, 3, 2, 0, 0, 0, 1, 1, 0);
    assert(t4 * s0 == (18) * mn(p, 3, 0, 1, 1, 2, 1, 0));
    lemma_tm(p, 6, 1, 0, 1, 1, 1, 0, 0, 6, 1, 1, 0, 1, 0, 1, 0);
    assert(t4 * s1 == (36) * mn(p, 2, 1, 1, 2, 1, 1, 0));
    lemma_tm(p, 6, 1, 0, 1, 1, 1, 0, 0, 1, 1, 1, 0, 0, 2, 0, 0);
    assert(t4 * s2 == (6) * mn(p, 2, 1, 1, 1, 3, 0, 0));
    lemma_tm(p, 6, 1, 0, 1, 1, 1, 0, 0, -3, 1, 1, 0, 0, 0, 2, 1);
    assert(t4 * s3 == (-18) * mn(p, 2, 1, 1, 1, 1, 2, 1));
    lemma_tm(p, 6, 1, 0, 1, 1, 1, 0, 0, 6, 1, 0, 1, 1, 1, 0, 0);
    assert(t4 * s4 == (36) * mn(p, 2, 0, 2, 2, 2, 0, 0));
    lemma_tm(p, 6, 1, 0, 1, 1, 1, 0, 0, -6, 1, 0, 1, 0, 1, 1, 1);
    assert(t4 * s5 == (-36) * mn(p, 2, 0, 2, 1, 2, 1, 1));
    lemma_tm(p, 6, 1, 0, 1, 1, 1, 0, 0, 1, 0, 2, 0, 1, 1, 0, 0);
    assert(t4 * s6 == (6) * mn(p, 1, 2, 1, 2, 2, 0, 0));
    lemma_tm(p, 6, 1, 0, 1, 1, 1, 0, 0, 3, 0, 1, 1, 2, 0, 0, 0);
    assert(t4 * s7 == (18) * mn(p, 1, 1, 2, 3, 1, 0, 0));
    lemma_tm(p, 6, 1, 0, 1, 1, 1, 0, 0, -6, 0, 1, 1, 1, 0, 1, 1);
    assert(t4 * s8 == (-36) * mn(p, 1, 1, 2, 2, 1, 1, 1));
    lemma_tm(p, 6, 1, 0, 1, 1, 1, 0, 0, 9, 0, 1, 1, 0, 0, 2, 0);
    assert(t4 * s9 == (54) * mn(p, 1, 1, 2, 1, 1, 2, 0));
    lemma_tm(p, 6, 1, 0, 1, 1, 1, 0, 0, -3, 0, 0, 2, 1, 1, 0, 1);
    assert(t4 * s10 == (-18) * mn(p, 1, 0, 3, 2, 2, 0, 1));
    lemma_tm(p, 6, 1, 0, 1, 1, 1, 0, 0, 9, 0, 0, 2, 0, 1, 1, 0);
    assert(t4 * s11 == (54) * mn(p, 1, 0, 3, 1, 2, 1, 0));
    assert(t4 * q == (18) * mn(p, 3, 0, 1, 1, 2, 1, 0) + (36) * mn(p, 2, 1, 1, 2, 1, 1, 0) + (6) * mn(p, 2, 1, 1, 1, 3, 0, 0) + (-18) * mn(p, 2, 1, 1, 1, 1, 2, 1) + (36) * mn(p, 2, 0, 2, 2, 2, 0, 0) + (-36) * mn(p, 2, 0, 2, 1, 2, 1, 1) + (6) * mn(p, 1, 2, 1, 2, 2, 0, 0) + (18) * mn(p, 1, 1, 2, 3, 1, 0, 0) + (-36) * mn(p, 1, 1, 2, 2, 1, 1, 1) + (54) * mn(p, 1, 1, 2, 1, 1, 2, 0) + (-18) * mn(p, 1, 0, 3, 2, 2, 0, 1) + (54) * mn(p, 1, 0, 3, 1, 2, 1, 0));
    lemma_tm(p, -6, 1, 0, 1, 0, 1, 1, 1, 3, 2, 0, 0, 0, 1, 1, 0);
    assert(t5 * s0 == (-18) * mn(p, 3, 0, 1, 0, 2, 2, 1));
    lemma_tm(p, -6, 1, 0, 1, 0, 1, 1, 1, 6, 1, 1, 0, 1, 0, 1, 0);
    assert(t5 * s1 == (-36) * mn(p, 2, 1, 1, 1, 1, 2, 1));
    lemma_tm(p, -6, 1, 0, 1, 0, 1, 1, 1, 1, 1, 1, 0, 0, 2, 0, 0);
    assert(t5 * s2 == (-6) * mn(p, 2, 1, 1, 0, 3, 1, 1));
    lemma_tm(p, -6, 1, 0, 1, 0, 1, 1, 1, -3, 1, 1, 0, 0, 0, 2, 1);
    assert(t5 * s3 == (18) * mn(p, 2, 1, 1, 0, 1, 3, 2));
    lemma_tm(p, -6, 1, 0, 1, 0, 1, 1, 1, 6, 1, 0, 1, 1, 1, 0, 0);
    assert(t5 * s4 == (-36) * mn(p, 2, 0, 2, 1, 2, 1, 1));
    lemma_tm(p, -6, 1, 0, 1, 0, 1, 1, 1, -6, 1, 0, 1, 0, 1, 1, 1);
    assert(t5 * s5 == (36) * mn(p, 2, 0, 2, 0, 2, 2, 2));
    lemma_tm(p, -6, 1, 0, 1, 0, 1, 1, 1, 1, 0, 2, 0, 1, 1, 0, 0);
    assert(t5 * s6 == (-6) * mn(p, 1, 2, 1, 1, 2, 1, 1));
    lemma_tm(p, -6, 1, 0, 1, 0, 1, 1, 1, 3, 0, 1, 1, 2, 0, 0, 0);
    assert(t5 * s7 == (-18) * mn(p, 1, 1, 2, 2, 1, 1, 1));
    lemma_tm(p, -6, 1, 0, 1, 0, 1, 1, 1, -6, 0, 1, 1, 1, 0, 1, 1);
    assert(t5 * s8 == (36) * mn(p, 1, 1, 2, 1, 1, 2, 2));
    lemma_tm(p, -6, 1, 0, 1, 0, 1, 1, 1, 9, 0, 1, 1, 0, 0, 2, 0);
    assert(t5 * s9 == (-54) * mn(p, 1, 1, 2, 0, 1, 3, 1));
    lemma_tm(p, -6, 1, 0, 1, 0, 1, 1, 1, -3, 0, 0, 2, 1, 1, 0, 1);
    assert(t5 * s10 == (18) * mn(p, 1, 0, 3, 1, 2, 1, 2));
    lemma_tm(p, -6, 1, 0, 1, 0, 1, 1, 1, 9, 0, 0, 2, 0, 1, 1, 0);
    assert(t5 * s11 == (-54) * mn(p, 1, 0, 3, 0, 2, 2, 1));
    assert(t5 * q == (-18) * mn(p, 3, 0, 1, 0, 2, 2, 1) + (-36) * mn(p, 2, 1, 1, 1, 1, 2, 1) + (-6) * mn(p, 2, 1, 1, 0, 3, 1, 1) + (18) * mn(p, 2, 1, 1, 0, 1, 3, 2) + (-36) * mn(p, 2, 0, 2, 1, 2, 1, 1) + (36) * mn(p, 2, 0, 2, 0, 2, 2, 2) + (-6) * mn(p, 1, 2, 1, 1, 2, 1, 1) + (-18) * mn(p, 1, 1, 2, 2, 1, 1, 1) + (36) * mn(p, 1, 1, 2, 1, 1, 2, 2) + (-54) * mn(p, 1, 1, 2, 0, 1, 3, 1) + (18) * mn(p, 1, 0, 3, 1, 2, 1, 2) + (-54) * mn(p, 1, 0, 3, 0, 2, 2, 1));
    lemma_tm(p, 1, 0, 2, 0, 1, 1, 0, 0, 3, 2, 0, 0, 0, 1, 1, 0);
    assert(t6 * s0 == (3) * mn(p, 2, 2, 0, 1, 2, 1, 0));
    lemma_tm(p, 1, 0, 2, 0, 1, 1, 0, 0, 6, 1, 1, 0, 1, 0, 1, 0);
    assert(t6 * s1 == (6) * mn(p, 1, 3, 0, 2, 1, 1, 0));
    lemma_tm(p, 1, 0, 2, 0, 1, 1, 0, 0, 1, 1, 1, 0, 0, 2, 0, 0);
    assert(t6 * s2 == (1) * mn(p, 1, 3, 0, 1, 3, 0, 0));
    lemma_tm(p, 1, 0, 2, 0, 1, 1, 0, 0, -3, 1, 1, 0, 0, 0, 2, 1);
    assert(t6 * s3 == (-3) * mn(p, 1, 3, 0, 1, 1, 2, 1));
    lemma_tm(p, 1, 0, 2, 0, 1, 1, 0, 0, 6, 1, 0, 1, 1, 1, 0, 0);
    assert(t6 * s4 == (6) * mn(p, 1, 2, 1, 2, 2, 0, 0));
    lemma_tm(p, 1, 0, 2, 0, 1, 1, 0, 0, -6, 1, 0, 1, 0, 1, 1, 1);
    assert(t6 * s5 == (-6) * mn(p, 1, 2, 1, 1, 2, 1, 1));
    lemma_tm(p, 1, 0, 2, 0, 1, 1, 0, 0, 1, 0, 2, 0, 1, 1, 0, 0);
    assert(t6 * s6 == (1) * mn(p, 0, 4, 0, 2, 2, 0, 0));
    lemma_tm(p, 1, 0, 2, 0, 1, 1, 0, 0, 3, 0, 1, 1, 2, 0, 0, 0);
    assert(t6 * s7 == (3) * mn(p, 0, 3, 1, 3, 1, 0, 0));
    lemma_tm(p, 1, 0, 2, 0, 1, 1, 0, 0, -6, 0, 1, 1, 1, 0, 1, 1);
    assert(t6 * s8 == (-6) * mn(p, 0, 3, 1, 2, 1, 1, 1));
    lemma_tm(p, 1, 0, 2, 0, 1, 1, 0, 0, 9, 0, 1, 1, 0, 0, 2, 0);
    assert(t6 * s9 == (9) * mn(p, 0, 3, 1, 1, 1, 2, 0));
    lemma_tm(p, 1, 0, 2, 0, 1, 1, 0, 0, -3, 0, 0, 2, 1, 1, 0, 1);
    assert(t6 * s10 == (-3) * mn(p, 0, 2, 2, 2, 2, 0, 1));
    lemma_tm(p, 1, 0, 2, 0, 1, 1, 0, 0, 9, 0, 0, 2, 0, 1, 1, 0);
    assert(t6 * s11 == (9) * mn(p, 0, 2, 2, 1, 2, 1, 0));
    assert(t6 * q == (3) * mn(p, 2, 2, 0, 1, 2, 1, 0) + (6) * mn(p, 1, 3, 0, 2, 1, 1, 0) + (1) * mn(p, 1, 3, 0, 1, 3, 0, 0) + (-3) * mn(p, 1, 3, 0, 1, 1, 2, 1) + (6) * mn(p, 1, 2, 1, 2, 2, 0, 0) + (-6) * mn(p, 1, 2, 1, 1, 2, 1, 1) + (1) * mn(p, 0, 4, 0, 2, 2, 0, 0) + (3) * mn(p, 0, 3, 1, 3, 1, 0, 0) + (-6) * mn(p, 0, 3, 1, 2, 1, 1, 1) + (9) * mn(p, 0, 3, 1, 1, 1, 2, 0) + (-3) * mn(p, 0, 2, 2, 2, 2, 0, 1) + (9) * mn(p, 0, 2, 2, 1, 2, 1, 0));
    lemma_tm(p, 3, 0, 1, 1, 2, 0, 0, 0, 3, 2, 0, 0, 0, 1, 1, 0);
    assert(t7 * s0 == (9) * mn(p, 2, 1, 1, 2, 1, 1, 0));
    lemma_tm(p, 3, 0, 1, 1, 2, 0, 0, 0, 6, 1, 1, 0, 1, 0, 1, 0);
    assert(t7 * s1 == (18) * mn(p, 1, 2, 1, 3, 0, 1, 0));
    lemma_tm(p, 3, 0, 1, 1, 2, 0, 0, 0, 1, 1, 1, 0, 0, 2, 0, 0);
    assert(t7 * s2 == (3) * mn(p, 1, 2, 1, 2, 2, 0, 0));
    lemma_tm(p, 3, 0, 1, 1, 2, 0, 0, 0, -3, 1, 1, 0, 0, 0, 2, 1);
    assert(t7 * s3 == (-9) * mn(p, 1, 2, 1, 2, 0, 2, 1));
    lemma_tm(p, 3, 0, 1, 1, 2, 0, 0, 0, 6, 1, 0, 1, 1, 1, 0, 0);
    assert(t7 * s4 == (18) * mn(p, 1, 1, 2, 3, 1, 0, 0));
    lemma_tm(p, 3, 0, 1, 1, 2, 0, 0, 0, -6, 1, 0, 1, 0, 1, 1, 1);
    assert(t7 * s5 == (-18) * mn(p, 1, 1, 2, 2, 1, 1, 1));
    lemma_tm(p, 3, 0, 1, 1, 2, 0, 0, 0, 1, 0, 2, 0, 1, 1, 0, 0);
    assert(t7 * s6 == (3) * mn(p, 0, 3, 1, 3, 1, 0, 0));
    lemma_tm(p, 3, 0, 1, 1, 2, 0, 0, 0, 3, 0, 1, 1, 2, 0, 0, 0);
    assert(t7 * s7 == (9) * mn(p, 0, 2, 2, 4, 0, 0, 0));
    lemma_tm(p, 3, 0, 1, 1, 2, 0, 0, 0, -6, 0, 1, 1, 1, 0, 1, 1);
    assert(t7 * s8 == (-18) * mn(p, 0, 2, 2, 3, 0, 1, 1));
    lemma_tm(p, 3, 0, 1, 1, 2, 0, 0, 0, 9, 0, 1, 1, 0, 0, 2, 0);
    assert(t7 * s9 == (27) * mn(p, 0, 2, 2, 2, 0, 2, 0));
    lemma_tm(p, 3, 0, 1, 1, 2, 0, 0, 0, -3, 0, 0, 2, 1, 1, 0, 1);
    assert(t7 * s10 == (-9) * mn(p, 0, 1, 3, 3, 1, 0, 1));
    lemma_tm(p, 3, 0, 1, 1, 2, 0, 0, 0, 9, 0, 0, 2, 0, 1, 1, 0);
    assert(t7 * s11 == (27) * mn(p, 0, 1, 3, 2, 1, 1, 0));
    assert(t7 * q == (9) * mn(p, 2, 1, 1, 2, 1, 1, 0) + (18) * mn(p, 1, 2, 1, 3, 0, 1, 0) + (3) * mn(p, 1, 2, 1, 2, 2, 0, 0) + (-9) * mn(p, 1, 2, 1, 2, 0, 2, 1) + (18) * mn(p, 1, 1, 2, 3, 1, 0, 0) + (-18) * mn(p, 1, 1, 2, 2, 1, 1, 1) + (3) * mn(p, 0, 3, 1, 3, 1, 0, 0) + (9) * mn(p, 0, 2, 2, 4, 0, 0, 0) + (-18) * mn(p, 0, 2, 2, 3, 0, 1, 1) + (27) * mn(p, 0, 2, 2, 2, 0, 2, 0) + (-9) * mn(p, 0, 1, 3, 3, 1, 0, 1) + (27) * mn(p, 0, 1, 3, 2, 1, 1, 0));
    lemma_tm(p, -6, 0, 1, 1, 1, 0, 1, 1, 3, 2, 0, 0, 0, 1, 1, 0);
    assert(t8 * s0 == (-18) * mn(p, 2, 1, 1, 1, 1, 2, 1));
    lemma_tm(p, -6, 0, 1, 1, 1, 0, 1, 1, 6, 1, 1, 0, 1, 0, 1, 0);
    assert(t8 * s1 == (-36) * mn(p, 1, 2, 1, 2, 0, 2, 1));
    lemma_tm(p, -6, 0, 1, 1, 1, 0, 1, 1, 1, 1, 1, 0, 0, 2, 0, 0);
    assert(t8 * s2 == (-6) * mn(p, 1, 2, 1, 1, 2, 1, 1));
    lemma_tm(p, -6, 0, 1, 1, 1, 0, 1, 1, -3, 1, 1, 0, 0, 0, 2, 1);
    assert(t8 * s3 == (18) * mn(p, 1, 2, 1, 1, 0, 3, 2));
    lemma_tm(p, -6, 0, 1, 1, 1, 0, 1, 1, 6, 1, 0, 1, 1, 1, 0, 0);
    assert(t8 * s4 == (-36) * mn(p, 1, 1, 2, 2, 1, 1, 1));
    lemma_tm(p, -6, 0, 1, 1, 1, 0, 1, 1, -6, 1, 0, 1, 0, 1, 1, 1);
    assert(t8 * s5 == (36) * mn(p, 1, 1, 2, 1, 1, 2, 2));
    lemma_tm(p, -6, 0, 1, 1, 1, 0, 1, 1, 1, 0, 2, 0, 1, 1, 0, 0);
    assert(t8 * s6 == (-6) * mn(p, 0, 3, 1, 2, 1, 1, 1));
    lemma_tm(p, -6, 0, 1, 1, 1, 0, 1, 1, 3, 0, 1, 1, 2, 0, 0, 0);
    assert(t8 * s7 == (-18) * mn(p, 0, 2, 2, 3, 0, 1, 1));
    lemma_tm(p, -6, 0, 1, 1, 1, 0, 1, 1, -6, 0, 1, 1, 1, 0, 1, 1);
    assert(t8 * s8 == (36) * mn(p, 0, 2, 2, 2, 0, 2, 2));
    lemma_tm(p, -6, 0, 1, 1, 1, 0, 1, 1, 9, 0, 1, 1, 0, 0, 2, 0);
    assert(t8 * s9 == (-54) * mn(p, 0, 2, 2, 1, 0, 3, 1));
    lemma_tm(p, -6, 0, 1, 1, 1, 0, 1, 1, -3, 0, 0, 2, 1, 1, 0, 1);
    assert(t8 * s10 == (18) * mn(p, 0, 1, 3, 2, 1, 1, 2));
    lemma_tm(p, -6, 0, 1, 1, 1, 0, 1, 1, 9, 0, 0, 2, 0, 1, 1, 0);
    assert(t8 * s11 == (-54) * mn(p, 0, 1, 3, 1, 1, 2, 1));
    assert(t8 * q == (-18) * mn(p, 2, 1, 1, 1, 1, 2, 1) + (-36) * mn(p, 1, 2, 1, 2, 0, 2, 1) + (-6) * mn(p, 1, 2, 1, 1, 2, 1, 1) + (18) * mn(p, 1, 2, 1, 1, 0, 3, 2) + (-36) * mn(p, 1, 1, 2, 2, 1, 1, 1) + (36) * mn(p, 1, 1, 2, 1, 1, 2, 2) + (-6) * mn(p, 0, 3, 1, 2, 1, 1, 1) + (-18) * mn(p, 0, 2, 2, 3, 0, 1, 1) + (36) * mn(p, 0, 2, 2, 2, 0, 2, 2) + (-54) * mn(p, 0, 2, 2, 1, 0, 3, 1) + (18) * mn(p, 0, 1, 3, 2, 1, 1, 2) + (-54) * mn(p, 0, 1, 3, 1, 1, 2, 1));
    lemma_tm(p, 9, 0, 1, 1, 0, 0, 2, 0, 3, 2, 0, 0, 0, 1, 1, 0);
    assert(t9 * s0 == (27) * mn(p, 2, 1, 1, 0, 1, 3, 0));
    lemma_tm(p, 9, 0, 1, 1, 0, 0, 2, 0, 6, 1, 1, 0, 1, 0, 1, 0);
    assert(t9 * s1 == (54) * mn(p, 1, 2, 1, 1, 0, 3, 0));
    lemma_tm(p, 9, 0, 1, 1, 0, 0, 2, 0, 1, 1, 1, 0, 0, 2, 0, 0);
    assert(t9 * s2 == (9) * mn(p, 1, 2, 1, 0, 2, 2, 0));
    lemma_tm(p, 9, 0, 1, 1, 0, 0, 2, 0, -3, 1, 1, 0, 0, 0, 2, 1);
    assert(t9 * s3 == (-27) * mn(p, 1, 2, 1, 0, 0, 4, 1));
    lemma_tm(p, 9, 0, 1, 1, 0, 0, 2, 0, 6, 1, 0, 1, 1, 1, 0, 0);
    assert(t9 * s4 == (54) * mn(p, 1, 1, 2, 1, 1, 2, 0));
    lemma_tm(p, 9, 0, 1, 1, 0, 0, 2, 0, -6, 1, 0, 1, 0, 1, 1, 1);
    assert(t9 * s5 == (-54) * mn(p, 1, 1, 2, 0, 1, 3, 1));
    lemma_tm(p, 9, 0, 1, 1, 0, 0, 2, 0, 1, 0, 2, 0, 1, 1, 0, 0);
    assert(t9 * s6 == (9) * mn(p, 0, 3, 1, 1, 1, 2, 0));
    lemma_tm(p, 9, 0, 1, 1, 0, 0, 2, 0, 3, 0, 1, 1, 2, 0, 0, 0);
    assert(t9 * s7 == (27) * mn(p, 0, 2, 2, 2, 0, 2, 0));
    lemma_tm(p, 9, 0, 1, 1, 0, 0, 2, 0, -6, 0, 1, 1, 1, 0, 1, 1);
    assert(t9 * s8 == (-54) * mn(p, 0, 2, 2, 1, 0, 3, 1));
    lemma_tm(p, 9, 0, 1, 1, 0, 0, 2, 0, 9, 0, 1, 1, 0, 0, 2, 0);
    assert(t9 * s9 == (81) * mn(p, 0, 2, 2, 0, 0, 4, 0));
    lemma_tm(p, 9, 0, 1, 1, 0, 0, 2, 0, -3, 0, 0, 2, 1, 1, 0, 1);
    assert(t9 * s10 == (-27) * mn(p, 0, 1, 3, 1, 1, 2, 1));
    lemma_tm(p, 9, 0, 1, 1, 0, 0, 2, 0, 9, 0, 0, 2, 0, 1, 1, 0);
    assert(t9 * s11 == (81) * mn(p, 0, 1, 3, 0, 1, 3, 0));
    assert(t9 * q == (27) * mn(p, 2, 1, 1, 0, 1, 3, 0) + (54) * mn(p, 1, 2, 1, 1, 0, 3, 0) + (9) * mn(p, 1, 2, 1, 0, 2, 2, 0) + (-27) * mn(p, 1, 2, 1, 0, 0, 4, 1) + (54) * mn(p, 1, 1, 2, 1, 1, 2, 0) + (-54) * mn(p, 1, 1, 2, 0, 1, 3, 1) + (9) * mn(p, 0, 3, 1, 1, 1, 2, 0) + (27) * mn(p, 0, 2, 2, 2, 0, 2, 0) + (-54) * mn(p, 0, 2, 2, 1, 0, 3, 1) + (81) * mn(p, 0, 2, 2, 0, 0, 4, 0) + (-27) * mn(p, 0, 1, 3, 1, 1, 2, 1) + (81) * mn(p, 0, 1, 3, 0, 1, 3, 0));
    lemma_tm(p, -3, 0, 0, 2, 1, 1, 0, 1, 3, 2, 0, 0, 0, 1, 1, 0);
    assert(t10 * s0 == (-9) * mn(p, 2, 0, 2, 1, 2, 1, 1));
    lemma_tm(p, -3, 0, 0, 2, 1, 1, 0, 1, 6, 1, 1, 0, 1, 0, 1, 0);
    assert(t10 * s1 == (-18) * mn(p, 1, 1, 2, 2, 1, 1, 1));
    lemma_tm(p, -3, 0, 0, 2, 1, 1, 0, 1, 1, 1, 1, 0, 0, 2, 0, 0);
    assert(t10 * s2 == (-3) * mn(p, 1, 1, 2, 1, 3, 0, 1));
    lemma_tm(p, -3, 0, 0, 2, 1, 1, 0, 1, -3, 1, 1, 0, 0, 0, 2, 1);
    assert(t10 * s3 == (9) * mn(p, 1, 1, 2, 1, 1, 2, 2));
    lemma_tm(p, -3, 0, 0, 2, 1, 1, 0, 1, 6, 1, 0, 1, 1, 1, 0, 0);
    assert(t10 * s4 == (-18) * mn(p, 1, 0, 3, 2, 2, 0, 1));
    lemma_tm(p, -3, 0, 0, 2, 1, 1, 0, 1, -6, 1, 0, 1, 0, 1, 1, 1);
    assert(t10 * s5 == (18) * mn(p, 1, 0, 3, 1, 2, 1, 2));
    lemma_tm(p, -3, 0, 0, 2, 1, 1, 0, 1, 1, 0, 2, 0, 1, 1, 0, 0);
    assert(t10 * s6 == (-3) * mn(p, 0, 2, 2, 2, 2, 0, 1));
    lemma_tm(p, -3, 0, 0, 2, 1, 1, 0, 1, 3, 0, 1, 1, 2, 0, 0, 0);
    assert(t10 * s7 == (-9) * mn(p, 0, 1, 3, 3, 1, 0, 1));
    lemma_tm(p, -3, 0, 0, 2, 1, 1, 0, 1, -6, 0, 1, 1, 1, 0, 1, 1);
    assert(t10 * s8 == (18) * mn(p, 0, 1, 3, 2, 1, 1, 2));
    lemma_tm(p, -3, 0, 0, 2, 1, 1, 0, 1, 9, 0, 1, 1, 0, 0, 2, 0);
    assert(t10 * s9 == (-27) * mn(p, 0, 1, 3, 1, 1, 2, 1));
    lemma_tm(p, -3, 0, 0, 2, 1, 1, 0, 1, -3, 0, 0, 2, 1, 1, 0, 1);
    assert(t10 * s10 == (9) * mn(p, 0, 0, 4, 2, 2, 0, 2));
    lemma_tm(p, -3, 0, 0, 2, 1, 1, 0, 1, 9, 0, 0, 2, 0, 1, 1, 0);
    assert(t10 * s11 == (-27) * mn(p, 0, 0, 4, 1, 2, 1, 1));
    assert(t10 * q == (-9) * mn(p, 2, 0, 2, 1, 2, 1, 1) + (-18) * mn(p, 1, 1, 2, 2, 1, 1, 1) + (-3) * mn(p, 1, 1, 2, 1, 3, 0, 1) + (9) * mn(p, 1, 1, 2, 1, 1, 2, 2) + (-18) * mn(p, 1, 0, 3, 2, 2, 0, 1) + (18) * mn(p, 1, 0, 3, 1, 2, 1, 2) + (-3) * mn(p, 0, 2, 2, 2, 2, 0, 1) + (-9) * mn(p, 0, 1, 3, 3, 1, 0, 1) + (18) * mn(p, 0, 1, 3, 2, 1, 1, 2) + (-27) * mn(p, 0, 1, 3, 1, 1, 2, 1) + (9) * mn(p, 0, 0, 4, 2, 2, 0, 2) + (-27) * mn(p, 0, 0, 4, 1, 2, 1, 1));
    lemma_tm(p, 9, 0, 0, 2, 0, 1, 1, 0, 3, 2, 0, 0, 0, 1, 1, 0);
    assert(t11 * s0 == (27) * mn(p, 2, 0, 2, 0, 2, 2, 0));
    lemma_tm(p, 9, 0, 0, 2, 0, 1, 1, 0, 6, 1, 1, 0, 1, 0, 1, 0);
    assert(t11 * s1 == (54) * mn(p, 1, 1, 2, 1, 1, 2, 0));
    lemma_tm(p, 9, 0, 0, 2, 0, 1, 1, 0, 1, 1, 1, 0, 0, 2, 0, 0);
    assert(t11 * s2 == (9) * mn(p, 1, 1, 2, 0, 3, 1, 0));
    lemma_tm(p, 9, 0, 0, 2, 0, 1, 1, 0, -3, 1, 1, 0, 0, 0, 2, 1);
    assert(t11 * s3 == (-27) * mn(p, 1, 1, 2, 0, 1, 3, 1));
    lemma_tm(p, 9, 0, 0, 2, 0, 1, 1, 0, 6, 1, 0, 1, 1, 1, 0, 0);
    assert(t11 * s4 == (54) * mn(p, 1, 0, 3, 1, 2, 1, 0));
    lemma_tm(p, 9, 0, 0, 2, 0, 1, 1, 0, -6, 1, 0, 1, 0, 1, 1, 1);
    assert(t11 * s5 == (-54) * mn(p, 1, 0, 3, 0, 2, 2, 1));
    lemma_tm(p, 9, 0, 0, 2, 0, 1, 1, 0, 1, 0, 2, 0, 1, 1, 0, 0);
    assert(t11 * s6 == (9) * mn(p, 0, 2, 2, 1, 2, 1, 0));
    lemma_tm(p, 9, 0, 0, 2, 0, 1, 1, 0, 3, 0, 1, 1, 2, 0, 0, 0);
    assert(t11 * s7 == (27) * mn(p, 0, 1, 3, 2, 1, 1, 0));
    lemma_tm(p, 9, 0, 0, 2, 0, 1, 1, 0, -6, 0, 1, 1, 1, 0, 1, 1);
    assert(t11 * s8 == (-54) * mn(p, 0, 1, 3, 1, 1, 2, 1));
    lemma_tm(p, 9, 0, 0, 2, 0, 1, 1, 0, 9, 0, 1, 1, 0, 0, 2, 0);
    assert(t11 * s9 == (81) * mn(p, 0, 1, 3, 0, 1, 3, 0));
    lemma_tm(p, 9, 0, 0, 2, 0, 1, 1, 0, -3, 0, 0, 2, 1, 1, 0, 1);
    assert(t11 * s10 == (-27) * mn(p, 0, 0, 4, 1, 2, 1, 1));
    lemma_tm(p, 9, 0, 0, 2, 0, 1, 1, 0, 9, 0, 0, 2, 0, 1, 1, 0);
    assert(t11 * s11 == (81) * mn(p, 0, 0, 4, 0, 2, 2, 0));
    assert(t11 * q == (27) * mn(p, 2, 0, 2, 0, 2, 2, 0) + (54) * mn(p, 1, 1, 2, 1, 1, 2, 0) + (9) * mn(p, 1, 1, 2, 0, 3, 1, 0) + (-27) * mn(p, 1, 1, 2, 0, 1, 3, 1) + (54) * mn(p, 1, 0, 3, 1, 2, 1, 0) + (-54) * mn(p, 1, 0, 3, 0, 2, 2, 1) + (9) * mn(p, 0, 2, 2, 1, 2, 1, 0) + (27) * mn(p, 0, 1, 3, 2, 1, 1, 0) + (-54) * mn(p, 0, 1, 3, 1, 1, 2, 1) + (81) * mn(p, 0, 1, 3, 0, 1, 3, 0) + (-27) * mn(p, 0, 0, 4, 1, 2, 1, 1) + (81) * mn(p, 0, 0, 4, 0, 2, 2, 0));
    assert(pp11 * q == (((((((9) * mn(p, 4, 0, 0, 0, 2, 2, 0) + (36) * mn(p, 3, 1, 0, 1, 1, 2, 0)) + ((6) * mn(p, 3, 1, 0, 0, 3, 1, 0) + (-18) * mn(p, 3, 1, 0, 0, 1, 3, 1))) + (((36) * mn(p, 3, 0, 1, 1, 2, 1, 0) + (-36) * mn(p, 3, 0, 1, 0, 2, 2, 1)) + ((36) * mn(p, 2, 2, 0, 2, 0, 2, 0) + (18) * mn(p, 2, 2, 0, 1, 2, 1, 0)))) + ((((-36) * mn(p, 2, 2, 0, 1, 0, 3, 1) + (1) * mn(p, 2, 2, 0, 0, 4, 0, 0)) + ((-6) * mn(p, 2, 2, 0, 0, 2, 2, 1) + (9) * mn(p, 2, 2, 0, 0, 0, 4, 2))) + (((90) * mn(p, 2, 1, 1, 2, 1, 1, 0) + (12) * mn(p, 2, 1, 1, 1, 3, 0, 0)) + ((-144) * mn(p, 2, 1, 1, 1, 1, 2, 1) + (-12) * mn(p, 2, 1, 1, 0, 3, 1, 1))))) + (((((36) * mn(p, 2, 1, 1, 0, 1, 3, 2) + (54) * mn(p, 2, 1, 1, 0, 1, 3, 0)) + ((36) * mn(p, 2, 0, 2, 2, 2, 0, 0) + (-90) * mn(p, 2, 0, 2, 1, 2, 1, 1))) + (((36) * mn(p, 2, 0, 2, 0, 2, 2, 2) + (54) * mn(p, 2, 0, 2, 0, 2, 2, 0)) + ((12) * mn(p, 1, 3, 0, 2, 1, 1, 0) + (2) * mn(p, 1, 3, 0, 1, 3, 0, 0)))) + ((((-6) * mn(p, 1, 3, 0, 1, 1, 2, 1) + (36) * mn(p, 1, 2, 1, 3, 0, 1, 0)) + ((18) * mn(p, 1, 2, 1, 2, 2, 0, 0) + (-90) * mn(p, 1, 2, 1, 2, 0, 2, 1))) + (((-24) * mn(p, 1, 2, 1, 1, 2, 1, 1) + (36) * mn(p, 1, 2, 1, 1, 0, 3, 2)) + ((108) * mn(p, 1, 2, 1, 1, 0, 3, 0) + (18) * mn(p, 1, 2, 1, 0, 2, 2, 0)))))) + ((((((-54) * mn(p, 1, 2, 1, 0, 0, 4, 1) + (36) * mn(p, 1, 1, 2, 3, 1, 0, 0)) + ((-144) * mn(p, 1, 1, 2, 2, 1, 1, 1) + (-6) * mn(p, 1, 1, 2, 1, 3, 0, 1))) + (((90) * mn(p, 1, 1, 2, 1, 1, 2, 2) + (216) * mn(p, 1, 1, 2, 1, 1, 2, 0)) + ((18) * mn(p, 1, 1, 2, 0, 3, 1, 0) + (-162) * mn(p, 1, 1, 2, 0, 1, 3, 1)))) + ((((-36) * mn(p, 1, 0, 3, 2, 2, 0, 1) + (36) * mn(p, 1, 0, 3, 1, 2, 1, 2)) + ((108) * mn(p, 1, 0, 3, 1, 2, 1, 0) + (-108) * mn(p, 1, 0, 3, 0, 2, 2, 1))) + (((1) * mn(p, 0, 4, 0, 2, 2, 0, 0) + (6) * mn(p, 0, 3, 1, 3, 1, 0, 0)) + ((-12) * mn(p, 0, 3, 1, 2, 1, 1, 1) + (18) * mn(p, 0, 3, 1, 1, 1, 2, 0))))) + (((((9) * mn(p, 0, 2, 2, 4, 0, 0, 0) + (-36) * mn(p, 0, 2, 2, 3, 0, 1, 1)) + ((-6) * mn(p, 0, 2, 2, 2, 2, 0, 1) + (36) * mn(p, 0, 2, 2, 2, 0, 2, 2))) + (((54) * mn(p, 0, 2, 2, 2, 0, 2, 0) + (18) * mn(p, 0, 2, 2, 1, 2, 1, 0)) + ((-108) * mn(p, 0, 2, 2, 1, 0, 3, 1) + (81) * mn(p, 0, 2, 2, 0, 0, 4, 0)))) + ((((-18) * mn(p, 0, 1, 3, 3, 1, 0, 1) + (36) * mn(p, 0, 1, 3, 2, 1, 1, 2)) + ((54) * mn(p, 0, 1, 3, 2, 1, 1, 0) + (-162) * mn(p, 0, 1, 3, 1, 1, 2, 1))) + (((162) * mn(p, 0, 1, 3, 0, 1, 3, 0) + (9) * mn(p, 0, 0, 4, 2, 2, 0, 2)) + ((-54) * mn(p, 0, 0, 4, 1, 2, 1, 1) + (81) * mn(p, 0, 0, 4, 0, 2, 2, 0))))))));
    assert(pp11 == ((((3) * mn(p, 2, 0, 0, 0, 1, 1, 0) + ((6) * mn(p, 1, 1, 0, 1, 0, 1, 0) + (1) * mn(p, 1, 1, 0, 0, 2, 0, 0))) + ((-3) * mn(p, 1, 1, 0, 0, 0, 2, 1) + ((6) * mn(p, 1, 0, 1, 1, 1, 0, 0) + (-6) * mn(p, 1, 0, 1, 0, 1, 1, 1)))) + (((1) * mn(p, 0, 2, 0, 1, 1, 0, 0) + ((3) * mn(p, 0, 1, 1, 2, 0, 0, 0) + (-6) * mn(p, 0, 1, 1, 1, 0, 1, 1))) + ((9) * mn(p, 0, 1, 1, 0, 0, 2, 0) + ((-3) * mn(p, 0, 0, 2, 1, 1, 0, 1) + (9) * mn(p, 0, 0, 2, 0, 1, 1, 0))))));
    assert(q == ((((3) * mn(p, 2, 0, 0, 0, 1, 1, 0) + ((6) * mn(p, 1, 1, 0, 1, 0, 1, 0) + (1) * mn(p, 1, 1, 0, 0, 2, 0, 0))) + ((-3) * mn(p, 1, 1, 0, 0, 0, 2, 1) + ((6) * mn(p, 1, 0, 1, 1, 1, 0, 0) + (-6) * mn(p, 1, 0, 1, 0, 1, 1, 1)))) + (((1) * mn(p, 0, 2, 0, 1, 1, 0, 0) + ((3) * mn(p, 0, 1, 1, 2, 0, 0, 0) + (-6) * mn(p, 0, 1, 1, 1, 0, 1, 1))) + ((9) * mn(p, 0, 1, 1, 0, 0, 2, 0) + ((-3) * mn(p, 0, 0, 2, 1, 1, 0, 1) + (9) * mn(p, 0, 0, 2, 0, 1, 1, 0))))));
}

#[verifier::rlimit(100)]
proof fn acb_prod7(p: Pt)
    ensures
        ((((((((9) * mn(p, 4, 0, 0, 0, 2, 2, 0) + (36) * mn(p, 3, 1, 0, 1, 1, 2, 0)) + ((6) * mn(p, 3, 1, 0, 0, 3, 1, 0) + (-18) * mn(p, 3, 1, 0, 0, 1, 3, 1))) + (((36) * mn(p, 3, 0, 1, 1, 2, 1, 0) + (-36) * mn(p, 3, 0, 1, 0, 2, 2, 1)) + ((36) * mn(p, 2, 2, 0, 2, 0, 2, 0) + (18) * mn(p, 2, 2, 0, 1, 2, 1, 0)))) + ((((-36) * mn(p, 2, 2, 0, 1, 0, 3, 1) + (1) * mn(p, 2, 2, 0, 0, 4, 0, 0)) + ((-6) * mn(p, 2, 2, 0, 0, 2, 2, 1) + (9) * mn(p, 2, 2, 0, 0, 0, 4, 2))) + (((90) * mn(p, 2, 1, 1, 2, 1, 1, 0) + (12) * mn(p, 2, 1, 1, 1, 3, 0, 0)) + ((-144) * mn(p, 2, 1, 1, 1, 1, 2, 1) + (-12) * mn(p, 2, 1, 1, 0, 3, 1, 1))))) + (((((36) * mn(p, 2, 1, 1, 0, 1, 3, 2) + (54) * mn(p, 2, 1, 1, 0, 1, 3, 0)) + ((36) * mn(p, 2, 0, 2, 2, 2, 0, 0) + (-90) * mn(p, 2, 0, 2, 1, 2, 1, 1))) + (((36) * mn(p, 2, 0, 2, 0, 2, 2, 2) + (54) * mn(p, 2, 0, 2, 0, 2, 2, 0)) + ((12) * mn(p, 1, 3, 0, 2, 1, 1, 0) + (2) * mn(p, 1, 3, 0, 1, 3, 0, 0)))) + ((((-6) * mn(p, 1, 3, 0, 1, 1, 2, 1) + (36) * mn(p, 1, 2, 1, 3, 0, 1, 0)) + ((18) * mn(p, 1, 2, 1, 2, 2, 0, 0) + (-90) * mn(p, 1, 2, 1, 2, 0, 2, 1))) + (((-24) * mn(p, 1, 2, 1, 1, 2, 1, 1) + (36) * mn(p, 1, 2, 1, 1, 0, 3, 2)) + ((108) * mn(p, 1, 2, 1, 1, 0, 3, 0) + (18) * mn(p, 1, 2, 1, 0, 2, 2, 0)))))) + ((((((-54) * mn(p, 1, 2, 1, 0, 0, 4, 1) + (36) * mn(p, 1, 1, 2, 3, 1, 0, 0)) + ((-144) * mn(p, 1, 1, 2, 2, 1, 1, 1) + (-6) * mn(p, 1, 1, 2, 1, 3, 0, 1))) + (((90) * mn(p, 1, 1, 2, 1, 1, 2, 2) + (216) * mn(p, 1, 1, 2, 1, 1, 2, 0)) + ((18) * mn(p, 1, 1, 2, 0, 3, 1, 0) + (-162) * mn(p, 1, 1, 2, 0, 1, 3, 1)))) + ((((-36) * mn(p, 1, 0, 3, 2, 2, 0, 1) + (36) * mn(p, 1, 0, 3, 1, 2, 1, 2)) + ((108) * mn(p, 1, 0, 3, 1, 2, 1, 0) + (-108) * mn(p, 1, 0, 3, 0, 2, 2, 1))) + (((1) * mn(p, 0, 4, 0, 2, 2, 0, 0) + (6) * mn(p, 0, 3, 1, 3, 1, 0, 0)) + ((-12) * mn(p, 0, 3, 1, 2, 1, 1, 1) + (18) * mn(p, 0, 3, 1, 1, 1, 2, 0))))) + (((((9) * mn(p, 0, 2, 2, 4, 0, 0, 0) + (-36) * mn(p, 0, 2, 2, 3, 0, 1, 1)) + ((-6) * mn(p, 0, 2, 2, 2, 2, 0, 1) + (36) * mn(p, 0, 2, 2, 2, 0, 2, 2))) + (((54) * mn(p, 0, 2, 2, 2, 0, 2, 0) + (18) * mn(p, 0, 2, 2, 1, 2, 1, 0)) + ((-108) * mn(p, 0, 2, 2, 1, 0, 3, 1) + (81) * mn(p, 0, 2, 2, 0, 0, 4, 0)))) + ((((-18) * mn(p, 0, 1, 3, 3, 1, 0, 1) + (36) * mn(p, 0, 1, 3, 2, 1, 1, 2)) + ((54) * mn(p, 0, 1, 3, 2, 1, 1, 0) + (-162) * mn(p, 0, 1, 3, 1, 1, 2, 1))) + (((162) * mn(p, 0, 1, 3, 0, 1, 3, 0) + (9) * mn(p, 0, 0, 4, 2, 2, 0, 2)) + ((-54) * mn(p, 0, 0, 4, 1, 2, 1, 1) + (81) * mn(p, 0, 0, 4, 0, 2, 2, 0)))))))) * (((((3) * mn(p, 2, 0, 0, 0, 1, 1, 0) + ((6) * mn(p, 1, 1, 0, 1, 0, 1, 0) + (1) * mn(p, 1, 1, 0, 0, 2, 0, 0))) + ((-3) * mn(p, 1, 1, 0, 0, 0, 2, 1) + ((6) * mn(p, 1, 0, 1, 1, 1, 0, 0) + (-6) * mn(p, 1, 0, 1, 0, 1, 1, 1)))) + (((1) * mn(p, 0, 2, 0, 1, 1, 0, 0) + ((3) * mn(p, 0, 1, 1, 2, 0, 0, 0) + (-6) * mn(p, 0, 1, 1, 1, 0, 1, 1))) + ((9) * mn(p, 0, 1, 1, 0, 0, 2, 0) + ((-3) * mn(p, 0, 0, 2, 1, 1, 0, 1) + (9) * mn(p, 0, 0, 2, 0, 1, 1, 0)))))) == ((((((((27) * mn(p, 6, 0, 0, 0, 3, 3, 0) + ((162) * mn(p, 5, 1, 0, 1, 2, 3, 0) + (27) * mn(p, 5, 1, 0, 0, 4, 2, 0))) + (((-81) * mn(p, 5, 1, 0, 0, 2, 4, 1) + (162) * mn(p, 5, 0, 1, 1, 3, 2, 0)) + ((-162) * mn(p, 5, 0, 1, 0, 3, 3, 1) + (324) * mn(p, 4, 2, 0, 2, 1, 3, 0)))) + (((135) * mn(p, 4, 2, 0, 1, 3, 2, 0) + ((-324) * mn(p, 4, 2, 0, 1, 1, 4, 1) + (9) * mn(p, 4, 2, 0, 0, 5, 1, 0))) + (((-54) * mn(p, 4, 2, 0, 0, 3, 3, 1) + (81) * mn(p, 4, 2, 0, 0, 1, 5, 2)) + ((729) * mn(p, 4, 1, 1, 2, 2, 2, 0) + (108) * mn(p, 4, 1, 1, 1, 4, 1, 0))))) + ((((-1134) * mn(p, 4, 1, 1, 1, 2, 3, 1) + ((-108) * mn(p, 4, 1, 1, 0, 4, 2, 1) + (324) * mn(p, 4, 1, 1, 0, 2, 4, 2))) + (((243) * mn(p, 4, 1, 1, 0, 2, 4, 0) + (324) * mn(p, 4, 0, 2, 2, 3, 1, 0)) + ((-729) * mn(p, 4, 0, 2, 1, 3, 2, 1) + (324) * mn(p, 4, 0, 2, 0, 3, 3, 2)))) + (((243) * mn(p, 4, 0, 2, 0, 3, 3, 0) + ((216) * mn(p, 3, 3, 0, 3, 0, 3, 0) + (216) * mn(p, 3, 3, 0, 2, 2, 2, 0))) + (((-324) * mn(p, 3, 3, 0, 2, 0, 4, 1) + (36) * mn(p, 3, 3, 0, 1, 4, 1, 0)) + ((-162) * mn(p, 3, 3, 0, 1, 2, 3, 1) + (162) * mn(p, 3, 3, 0, 1, 0, 5, 2)))))) + (((((1) * mn(p, 3, 3, 0, 0, 6, 0, 0) + ((-9) * mn(p, 3, 3, 0, 0, 4, 2, 1) + (27) * mn(p, 3, 3, 0, 0, 2, 4, 2))) + (((-27) * mn(p, 3, 3, 0, 0, 0, 6, 3) + (972) * mn(p, 3, 2, 1, 3, 1, 2, 0)) + ((378) * mn(p, 3, 2, 1, 2, 3, 1, 0) + (-2106) * mn(p, 3, 2, 1, 2, 1, 3, 1)))) + (((18) * mn(p, 3, 2, 1, 1, 5, 0, 0) + ((-540) * mn(p, 3, 2, 1, 1, 3, 2, 1) + (1134) * mn(p, 3, 2, 1, 1, 1, 4, 2))) + (((972) * mn(p, 3, 2, 1, 1, 1, 4, 0) + (-18) * mn(p, 3, 2, 1, 0, 5, 1, 1)) + ((108) * mn(p, 3, 2, 1, 0, 3, 3, 2) + (162) * mn(p, 3, 2, 1, 0, 3, 3, 0))))) + ((((-162) * mn(p, 3, 2, 1, 0, 1, 5, 3) + ((-486) * mn(p, 3, 2, 1, 0, 1, 5, 1) + (972) * mn(p, 3, 1, 2, 3, 2, 1, 0))) + (((108) * mn(p, 3, 1, 2, 2, 4, 0, 0) + (-2916) * mn(p, 3, 1, 2, 2, 2, 2, 1)) + ((-270) * mn(p, 3, 1, 2, 1, 4, 1, 1) + (2106) * mn(p, 3, 1, 2, 1, 2, 3, 2)))) + (((1944) * mn(p, 3, 1, 2, 1, 2, 3, 0) + ((108) * mn(p, 3, 1, 2, 0, 4, 2, 2) + (162) * mn(p, 3, 1, 2, 0, 4, 2, 0))) + (((-324) * mn(p, 3, 1, 2, 0, 2, 4, 3) + (-1458) * mn(p, 3, 1, 2, 0, 2, 4, 1)) + ((216) * mn(p, 3, 0, 3, 3, 3, 0, 0) + (-972) * mn(p, 3, 0, 3, 2, 3, 1, 1))))))) + ((((((972) * mn(p, 3, 0, 3, 1, 3, 2, 2) + ((972) * mn(p, 3, 0, 3, 1, 3, 2, 0) + (-216) * mn(p, 3, 0, 3, 0, 3, 3, 3))) + (((-972) * mn(p, 3, 0, 3, 0, 3, 3, 1) + (108) * mn(p, 2, 4, 0, 3, 1, 2, 0)) + ((45) * mn(p, 2, 4, 0, 2, 3, 1, 0) + (-108) * mn(p, 2, 4, 0, 2, 1, 3, 1)))) + (((3) * mn(p, 2, 4, 0, 1, 5, 0, 0) + ((-18) * mn(p, 2, 4, 0, 1, 3, 2, 1) + (27) * mn(p, 2, 4, 0, 1, 1, 4, 2))) + (((324) * mn(p, 2, 3, 1, 4, 0, 2, 0) + (378) * mn(p, 2, 3, 1, 3, 2, 1, 0)) + ((-972) * mn(p, 2, 3, 1, 3, 0, 3, 1) + (45) * mn(p, 2, 3, 1, 2, 4, 0, 0))))) + ((((-702) * mn(p, 2, 3, 1, 2, 2, 2, 1) + ((729) * mn(p, 2, 3, 1, 2, 0, 4, 2) + (972) * mn(p, 2, 3, 1, 2, 0, 4, 0))) + (((-54) * mn(p, 2, 3, 1, 1, 4, 1, 1) + (216) * mn(p, 2, 3, 1, 1, 2, 3, 2)) + ((486) * mn(p, 2, 3, 1, 1, 2, 3, 0) + (-162) * mn(p, 2, 3, 1, 1, 0, 5, 3)))) + (((-972) * mn(p, 2, 3, 1, 1, 0, 5, 1) + ((27) * mn(p, 2, 3, 1, 0, 4, 2, 0) + (-162) * mn(p, 2, 3, 1, 0, 2, 4, 1))) + (((243) * mn(p, 2, 3, 1, 0, 0, 6, 2) + (729) * mn(p, 2, 2, 2, 4, 1, 1, 0)) + ((216) * mn(p, 2, 2, 2, 3, 3, 0, 0) + (-2916) * mn(p, 2, 2, 2, 3, 1, 2, 1)))))) + (((((-702) * mn(p, 2, 2, 2, 2, 3, 1, 1) + ((2916) * mn(p, 2, 2, 2, 2, 1, 3, 2) + (3402) * mn(p, 2, 2, 2, 2, 1, 3, 0))) + (((-9) * mn(p, 2, 2, 2, 1, 5, 0, 1) + (378) * mn(p, 2, 2, 2, 1, 3, 2, 2)) + ((810) * mn(p, 2, 2, 2, 1, 3, 2, 0) + (-729) * mn(p, 2, 2, 2, 1, 1, 4, 3)))) + (((-4860) * mn(p, 2, 2, 2, 1, 1, 4, 1) + ((27) * mn(p, 2, 2, 2, 0, 5, 1, 0) + (-486) * mn(p, 2, 2, 2, 0, 3, 3, 1))) + (((1215) * mn(p, 2, 2, 2, 0, 1, 5, 2) + (729) * mn(p, 2, 2, 2, 0, 1, 5, 0)) + ((324) * mn(p, 2, 1, 3, 4, 2, 0, 0) + (-2106) * mn(p, 2, 1, 3, 3, 2, 1, 1))))) + ((((-108) * mn(p, 2, 1, 3, 2, 4, 0, 1) + ((2916) * mn(p, 2, 1, 3, 2, 2, 2, 2) + (3402) * mn(p, 2, 1, 3, 2, 2, 2, 0))) + (((108) * mn(p, 2, 1, 3, 1, 4, 1, 2) + (324) * mn(p, 2, 1, 3, 1, 4, 1, 0)) + ((-972) * mn(p, 2, 1, 3, 1, 2, 3, 3) + (-6318) * mn(p, 2, 1, 3, 1, 2, 3, 1)))) + (((-324) * mn(p, 2, 1, 3, 0, 4, 2, 1) + ((1944) * mn(p, 2, 1, 3, 0, 2, 4, 2) + (1458) * mn(p, 2, 1, 3, 0, 2, 4, 0))) + (((-324) * mn(p, 2, 0, 4, 3, 3, 0, 1) + (729) * mn(p, 2, 0, 4, 2, 3, 1, 2)) + ((972) * mn(p, 2, 0, 4, 2, 3, 1, 0) + (-324) * mn(p, 2, 0, 4, 1, 3, 2, 3)))))))) + (((((((-2430) * mn(p, 2, 0, 4, 1, 3, 2, 1) + ((972) * mn(p, 2, 0, 4, 0, 3, 3, 2) + (729) * mn(p, 2, 0, 4, 0, 3, 3, 0))) + (((18) * mn(p, 1, 5, 0, 3, 2, 1, 0) + (3) * mn(p, 1, 5, 0, 2, 4, 0, 0)) + ((-9) * mn(p, 1, 5, 0, 2, 2, 2, 1) + (108) * mn(p, 1, 4, 1, 4, 1, 1, 0)))) + (((36) * mn(p, 1, 4, 1, 3, 3, 0, 0) + ((-270) * mn(p, 1, 4, 1, 3, 1, 2, 1) + (-54) * mn(p, 1, 4, 1, 2, 3, 1, 1))) + (((108) * mn(p, 1, 4, 1, 2, 1, 3, 2) + (324) * mn(p, 1, 4, 1, 2, 1, 3, 0)) + ((54) * mn(p, 1, 4, 1, 1, 3, 2, 0) + (-162) * mn(p, 1, 4, 1, 1, 1, 4, 1))))) + ((((162) * mn(p, 1, 3, 2, 5, 0, 1, 0) + ((135) * mn(p, 1, 3, 2, 4, 2, 0, 0) + (-729) * mn(p, 1, 3, 2, 4, 0, 2, 1))) + (((-540) * mn(p, 1, 3, 2, 3, 2, 1, 1) + (972) * mn(p, 1, 3, 2, 3, 0, 3, 2)) + ((972) * mn(p, 1, 3, 2, 3, 0, 3, 0) + (-18) * mn(p, 1, 3, 2, 2, 4, 0, 1)))) + (((378) * mn(p, 1, 3, 2, 2, 2, 2, 2) + ((810) * mn(p, 1, 3, 2, 2, 2, 2, 0) + (-324) * mn(p, 1, 3, 2, 2, 0, 4, 3))) + (((-2430) * mn(p, 1, 3, 2, 2, 0, 4, 1) + (54) * mn(p, 1, 3, 2, 1, 4, 1, 0)) + ((-810) * mn(p, 1, 3, 2, 1, 2, 3, 1) + (972) * mn(p, 1, 3, 2, 1, 0, 5, 2)))))) + (((((1458) * mn(p, 1, 3, 2, 1, 0, 5, 0) + ((243) * mn(p, 1, 3, 2, 0, 2, 4, 0) + (-729) * mn(p, 1, 3, 2, 0, 0, 6, 1))) + (((162) * mn(p, 1, 2, 3, 5, 1, 0, 0) + (-1134) * mn(p, 1, 2, 3, 4, 1, 1, 1)) + ((-162) * mn(p, 1, 2, 3, 3, 3, 0, 1) + (2106) * mn(p, 1, 2, 3, 3, 1, 2, 2)))) + (((1944) * mn(p, 1, 2, 3, 3, 1, 2, 0) + ((216) * mn(p, 1, 2, 3, 2, 3, 1, 2) + (486) * mn(p, 1, 2, 3, 2, 3, 1, 0))) + (((-972) * mn(p, 1, 2, 3, 2, 1, 3, 3) + (-6318) * mn(p, 1, 2, 3, 2, 1, 3, 1)) + ((-810) * mn(p, 1, 2, 3, 1, 3, 2, 1) + (3402) * mn(p, 1, 2, 3, 1, 1, 4, 2))))) + ((((4374) * mn(p, 1, 2, 3, 1, 1, 4, 0) + ((486) * mn(p, 1, 2, 3, 0, 3, 3, 0) + (-2916) * mn(p, 1, 2, 3, 0, 1, 5, 1))) + (((-324) * mn(p, 1, 1, 4, 4, 2, 0, 1) + (1134) * mn(p, 1, 1, 4, 3, 2, 1, 2)) + ((972) * mn(p, 1, 1, 4, 3, 2, 1, 0) + (27) * mn(p, 1, 1, 4, 2, 4, 0, 2)))) + (((-729) * mn(p, 1, 1, 4, 2, 2, 2, 3) + ((-4860) * mn(p, 1, 1, 4, 2, 2, 2, 1) + (-162) * mn(p, 1, 1, 4, 1, 4, 1, 1))) + (((3402) * mn(p, 1, 1, 4, 1, 2, 3, 2) + (4374) * mn(p, 1, 1, 4, 1, 2, 3, 0)) + ((243) * mn(p, 1, 1, 4, 0, 4, 2, 0) + (-3645) * mn(p, 1, 1, 4, 0, 2, 4, 1))))))) + ((((((162) * mn(p, 1, 0, 5, 3, 3, 0, 2) + ((-162) * mn(p, 1, 0, 5, 2, 3, 1, 3) + (-972) * mn(p, 1, 0, 5, 2, 3, 1, 1))) + (((972) * mn(p, 1, 0, 5, 1, 3, 2, 2) + (1458) * mn(p, 1, 0, 5, 1, 3, 2, 0)) + ((-1458) * mn(p, 1, 0, 5, 0, 3, 3, 1) + (1) * mn(p, 0, 6, 0, 3, 3, 0, 0)))) + (((9) * mn(p, 0, 5, 1, 4, 2, 0, 0) + ((-18) * mn(p, 0, 5, 1, 3, 2, 1, 1) + (27) * mn(p, 0, 5, 1, 2, 2, 2, 0))) + (((27) * mn(p, 0, 4, 2, 5, 1, 0, 0) + (-108) * mn(p, 0, 4, 2, 4, 1, 1, 1)) + ((-9) * mn(p, 0, 4, 2, 3, 3, 0, 1) + (108) * mn(p, 0, 4, 2, 3, 1, 2, 2))))) + ((((162) * mn(p, 0, 4, 2, 3, 1, 2, 0) + ((27) * mn(p, 0, 4, 2, 2, 3, 1, 0) + (-324) * mn(p, 0, 4, 2, 2, 1, 3, 1))) + (((243) * mn(p, 0, 4, 2, 1, 1, 4, 0) + (27) * mn(p, 0, 3, 3, 6, 0, 0, 0)) + ((-162) * mn(p, 0, 3, 3, 5, 0, 1, 1) + (-54) * mn(p, 0, 3, 3, 4, 2, 0, 1)))) + (((324) * mn(p, 0, 3, 3, 4, 0, 2, 2) + ((243) * mn(p, 0, 3, 3, 4, 0, 2, 0) + (108) * mn(p, 0, 3, 3, 3, 2, 1, 2))) + (((162) * mn(p, 0, 3, 3, 3, 2, 1, 0) + (-216) * mn(p, 0, 3, 3, 3, 0, 3, 3)) + ((-972) * mn(p, 0, 3, 3, 3, 0, 3, 1) + (-486) * mn(p, 0, 3, 3, 2, 2, 2, 1)))))) + (((((972) * mn(p, 0, 3, 3, 2, 0, 4, 2) + ((729) * mn(p, 0, 3, 3, 2, 0, 4, 0) + (486) * mn(p, 0, 3, 3, 1, 2, 3, 0))) + (((-1458) * mn(p, 0, 3, 3, 1, 0, 5, 1) + (729) * mn(p, 0, 3, 3, 0, 0, 6, 0)) + ((-81) * mn(p, 0, 2, 4, 5, 1, 0, 1) + (324) * mn(p, 0, 2, 4, 4, 1, 1, 2)))) + (((243) * mn(p, 0, 2, 4, 4, 1, 1, 0) + ((27) * mn(p, 0, 2, 4, 3, 3, 0, 2) + (-324) * mn(p, 0, 2, 4, 3, 1, 2, 3))) + (((-1458) * mn(p, 0, 2, 4, 3, 1, 2, 1) + (-162) * mn(p, 0, 2, 4, 2, 3, 1, 1)) + ((1944) * mn(p, 0, 2, 4, 2, 1, 3, 2) + (1458) * mn(p, 0, 2, 4, 2, 1, 3, 0))))) + ((((243) * mn(p, 0, 2, 4, 1, 3, 2, 0) + ((-3645) * mn(p, 0, 2, 4, 1, 1, 4, 1) + (2187) * mn(p, 0, 2, 4, 0, 1, 5, 0))) + (((81) * mn(p, 0, 1, 5, 4, 2, 0, 2) + (-162) * mn(p, 0, 1, 5, 3, 2, 1, 3)) + ((-486) * mn(p, 0, 1, 5, 3, 2, 1, 1) + (1215) * mn(p, 0, 1, 5, 2, 2, 2, 2)))) + (((729) * mn(p, 0, 1, 5, 2, 2, 2, 0) + ((-2916) * mn(p, 0, 1, 5, 1, 2, 3, 1) + (2187) * mn(p, 0, 1, 5, 0, 2, 4, 0))) + (((-27) * mn(p, 0, 0, 6, 3, 3, 0, 3) + (243) * mn(p, 0, 0, 6, 2, 3, 1, 2)) + ((-729) * mn(p, 0, 0, 6, 1, 3, 2, 1) + (729) * mn(p, 0, 0, 6, 0, 3, 3, 0))))))))),
{
    let c0 = ((((((9) * mn(p, 4, 0, 0, 0, 2, 2, 0) + (36) * mn(p, 3, 1, 0, 1, 1, 2, 0)) + ((6) * mn(p, 3, 1, 0, 0, 3, 1, 0) + (-18) * mn(p, 3, 1, 0, 0, 1, 3, 1))) + (((36) * mn(p, 3, 0, 1, 1, 2, 1, 0) + (-36) * mn(p, 3, 0, 1, 0, 2, 2, 1)) + ((36) * mn(p, 2, 2, 0, 2, 0, 2, 0) + (18) * mn(p, 2, 2, 0, 1, 2, 1, 0)))) + ((((-36) * mn(p, 2, 2, 0, 1, 0, 3, 1) + (1) * mn(p, 2, 2, 0, 0, 4, 0, 0)) + ((-6) * mn(p, 2, 2, 0, 0, 2, 2, 1) + (9) * mn(p, 2, 2, 0, 0, 0, 4, 2))) + (((90) * mn(p, 2, 1, 1, 2, 1, 1, 0) + (12) * mn(p, 2, 1, 1, 1, 3, 0, 0)) + ((-144) * mn(p, 2, 1, 1, 1, 1, 2, 1) + (-12) * mn(p, 2, 1, 1, 0, 3, 1, 1))))) + (((((36) * mn(p, 2, 1, 1, 0, 1, 3, 2) + (54) * mn(p, 2, 1, 1, 0, 1, 3, 0)) + ((36) * mn(p, 2, 0, 2, 2, 2, 0, 0) + (-90) * mn(p, 2, 0, 2, 1, 2, 1, 1))) + (((36) * mn(p, 2, 0, 2, 0, 2, 2, 2) + (54) * mn(p, 2, 0, 2, 0, 2, 2, 0)) + ((12) * mn(p, 1, 3, 0, 2, 1, 1, 0) + (2) * mn(p, 1, 3, 0, 1, 3, 0, 0)))) + ((((-6) * mn(p, 1, 3, 0, 1, 1, 2, 1) + (36) * mn(p, 1, 2, 1, 3, 0, 1, 0)) + ((18) * mn(p, 1, 2, 1, 2, 2, 0, 0) + (-90) * mn(p, 1, 2, 1, 2, 0, 2, 1))) + (((-24) * mn(p, 1, 2, 1, 1, 2, 1, 1) + (36) * mn(p, 1, 2, 1, 1, 0, 3, 2)) + ((108) * mn(p, 1, 2, 1, 1, 0, 3, 0) + (18) * mn(p, 1, 2, 1, 0, 2, 2, 0))))));
    let c1 = ((((((-54) * mn(p, 1, 2, 1, 0, 0, 4, 1) + (36) * mn(p, 1, 1, 2, 3, 1, 0, 0)) + ((-144) * mn(p, 1, 1, 2, 2, 1, 1, 1) + (-6) * mn(p, 1, 1, 2, 1, 3, 0, 1))) + (((90) * mn(p, 1, 1, 2, 1, 1, 2, 2) + (216) * mn(p, 1, 1, 2, 1, 1, 2, 0)) + ((18) * mn(p, 1, 1, 2, 0, 3, 1, 0) + (-162) * mn(p, 1, 1, 2, 0, 1, 3, 1)))) + ((((-36) * mn(p, 1, 0, 3, 2, 2, 0, 1) + (36) * mn(p, 1, 0, 3, 1, 2, 1, 2)) + ((108) * mn(p, 1, 0, 3, 1, 2, 1, 0) + (-108) * mn(p, 1, 0, 3, 0, 2, 2, 1))) + (((1) * mn(p, 0, 4, 0, 2, 2, 0, 0) + (6) * mn(p, 0, 3, 1, 3, 1, 0, 0)) + ((-12) * mn(p, 0, 3, 1, 2, 1, 1, 1) + (18) * mn(p, 0, 3, 1, 1, 1, 2, 0))))) + (((((9) * mn(p, 0, 2, 2, 4, 0, 0, 0) + (-36) * mn(p, 0, 2, 2, 3, 0, 1, 1)) + ((-6) * mn(p, 0, 2, 2, 2, 2, 0, 1) + (36) * mn(p, 0, 2, 2, 2, 0, 2, 2))) + (((54) * mn(p, 0, 2, 2, 2, 0, 2, 0) + (18) * mn(p, 0, 2, 2, 1, 2, 1, 0)) + ((-108) * mn(p, 0, 2, 2, 1, 0, 3, 1) + (81) * mn(p, 0, 2, 2, 0, 0, 4, 0)))) + ((((-18) * mn(p, 0, 1, 3, 3, 1, 0, 1) + (36) * mn(p, 0, 1, 3, 2, 1, 1, 2)) + ((54) * mn(p, 0, 1, 3, 2, 1, 1, 0) + (-162) * mn(p, 0, 1, 3, 1, 1, 2, 1))) + (((162) * mn(p, 0, 1, 3, 0, 1, 3, 0) + (9) * mn(p, 0, 0, 4, 2, 2, 0, 2)) + ((-54) * mn(p, 0, 0, 4, 1, 2, 1, 1) + (81) * mn(p, 0, 0, 4, 0, 2, 2, 0))))));
    let cc0 = c0;
    let cc1 = cc0 + c1;
    assert(cc1 == (((((((9) * mn(p, 4, 0, 0, 0, 2, 2, 0) + (36) * mn(p, 3, 1, 0, 1, 1, 2, 0)) + ((6) * mn(p, 3, 1, 0, 0, 3, 1, 0) + (-18) * mn(p, 3, 1, 0, 0, 1, 3, 1))) + (((36) * mn(p, 3, 0, 1, 1, 2, 1, 0) + (-36) * mn(p, 3, 0, 1, 0, 2, 2, 1)) + ((36) * mn(p, 2, 2, 0, 2, 0, 2, 0) + (18) * mn(p, 2, 2, 0, 1, 2, 1, 0)))) + ((((-36) * mn(p, 2, 2, 0, 1, 0, 3, 1) + (1) * mn(p, 2, 2, 0, 0, 4, 0, 0)) + ((-6) * mn(p, 2, 2, 0, 0, 2, 2, 1) + (9) * mn(p, 2, 2, 0, 0, 0, 4, 2))) + (((90) * mn(p, 2, 1, 1, 2, 1, 1, 0) + (12) * mn(p, 2, 1, 1, 1, 3, 0, 0)) + ((-144) * mn(p, 2, 1, 1, 1, 1, 2, 1) + (-12) * mn(p, 2, 1, 1, 0, 3, 1, 1))))) + (((((36) * mn(p, 2, 1, 1, 0, 1, 3, 2) + (54) * mn(p, 2, 1, 1, 0, 1, 3, 0)) + ((36) * mn(p, 2, 0, 2, 2, 2, 0, 0) + (-90) * mn(p, 2, 0, 2, 1, 2, 1, 1))) + (((36) * mn(p, 2, 0, 2, 0, 2, 2, 2) + (54) * mn(p, 2, 0, 2, 0, 2, 2, 0)) + ((12) * mn(p, 1, 3, 0, 2, 1, 1, 0) + (2) * mn(p, 1, 3, 0, 1, 3, 0, 0)))) + ((((-6) * mn(p, 1, 3, 0, 1, 1, 2, 1) + (36) * mn(p, 1, 2, 1, 3, 0, 1, 0)) + ((18) * mn(p, 1, 2, 1, 2, 2, 0, 0) + (-90) * mn(p, 1, 2, 1, 2, 0, 2, 1))) + (((-24) * mn(p, 1, 2, 1, 1, 2, 1, 1) + (36) * mn(p, 1, 2, 1, 1, 0, 3, 2)) + ((108) * mn(p, 1, 2, 1, 1, 0, 3, 0) + (18) * mn(p, 1, 2, 1, 0, 2, 2, 0)))))) + ((((((-54) * mn(p, 1, 2, 1, 0, 0, 4, 1) + (36) * mn(p, 1, 1, 2, 3, 1, 0, 0)) + ((-144) * mn(p, 1, 1, 2, 2, 1, 1, 1) + (-6) * mn(p, 1, 1, 2, 1, 3, 0, 1))) + (((90) * mn(p, 1, 1, 2, 1, 1, 2, 2) + (216) * mn(p, 1, 1, 2, 1, 1, 2, 0)) + ((18) * mn(p, 1, 1, 2, 0, 3, 1, 0) + (-162) * mn(p, 1, 1, 2, 0, 1, 3, 1)))) + ((((-36) * mn(p, 1, 0, 3, 2, 2, 0, 1) + (36) * mn(p, 1, 0, 3, 1, 2, 1, 2)) + ((108) * mn(p, 1, 0, 3, 1, 2, 1, 0) + (-108) * mn(p, 1, 0, 3, 0, 2, 2, 1))) + (((1) * mn(p, 0, 4, 0, 2, 2, 0, 0) + (6) * mn(p, 0, 3, 1, 3, 1, 0, 0)) + ((-12) * mn(p, 0, 3, 1, 2, 1, 1, 1) + (18) * mn(p, 0, 3, 1, 1, 1, 2, 0))))) + (((((9) * mn(p, 0, 2, 2, 4, 0, 0, 0) + (-36) * mn(p, 0, 2, 2, 3, 0, 1, 1)) + ((-6) * mn(p, 0, 2, 2, 2, 2, 0, 1) + (36) * mn(p, 0, 2, 2, 2, 0, 2, 2))) + (((54) * mn(p, 0, 2, 2, 2, 0, 2, 0) + (18) * mn(p, 0, 2, 2, 1, 2, 1, 0)) + ((-108) * mn(p, 0, 2, 2, 1, 0, 3, 1) + (81) * mn(p, 0, 2, 2, 0, 0, 4, 0)))) + ((((-18) * mn(p, 0, 1, 3, 3, 1, 0, 1) + (36) * mn(p, 0, 1, 3, 2, 1, 1, 2)) + ((54) * mn(p, 0, 1, 3, 2, 1, 1, 0) + (-162) * mn(p, 0, 1, 3, 1, 1, 2, 1))) + (((162) * mn(p, 0, 1, 3, 0, 1, 3, 0) + (9) * mn(p, 0, 0, 4, 2, 2, 0, 2)) + ((-54) * mn(p, 0, 0, 4, 1, 2, 1, 1) + (81) * mn(p, 0, 0, 4, 0, 2, 2, 0))))))));
    let q = ((((3) * mn(p, 2, 0, 0, 0, 1, 1, 0) + ((6) * mn(p, 1, 1, 0, 1, 0, 1, 0) + (1) * mn(p, 1, 1, 0, 0, 2, 0, 0))) + ((-3) * mn(p, 1, 1, 0, 0, 0, 2, 1) + ((6) * mn(p, 1, 0, 1, 1, 1, 0, 0) + (-6) * mn(p, 1, 0, 1, 0, 1, 1, 1)))) + (((1) * mn(p, 0, 2, 0, 1, 1, 0, 0) + ((3) * mn(p, 0, 1, 1, 2, 0, 0, 0) + (-6) * mn(p, 0, 1, 1, 1, 0, 1, 1))) + ((9) * mn(p, 0, 1, 1, 0, 0, 2, 0) + ((-3) * mn(p, 0, 0, 2, 1, 1, 0, 1) + (9) * mn(p, 0, 0, 2, 0, 1, 1, 0)))));
    lemma_mul_is_distributive_add_other_way(q, cc0, c1);
    acb_prod7_c0(p);
    assert(c0 * q == ((((((((27) * mn(p, 6, 0, 0, 0, 3, 3, 0) + (162) * mn(p, 5, 1, 0, 1, 2, 3, 0)) + ((27) * mn(p, 5, 1, 0, 0, 4, 2, 0) + (-81) * mn(p, 5, 1, 0, 0, 2, 4, 1))) + (((162) * mn(p, 5, 0, 1, 1, 3, 2, 0) + (-162) * mn(p, 5, 0, 1, 0, 3, 3, 1)) + ((324) * mn(p, 4, 2, 0, 2, 1, 3, 0) + ((135) * mn(p, 4, 2, 0, 1, 3, 2, 0) + (-324) * mn(p, 4, 2, 0, 1, 1, 4, 1))))) + ((((9) * mn(p, 4, 2, 0, 0, 5, 1, 0) + (-54) * mn(p, 4, 2, 0, 0, 3, 3, 1)) + ((81) * mn(p, 4, 2, 0, 0, 1, 5, 2) + ((729) * mn(p, 4, 1, 1, 2, 2, 2, 0) + (108) * mn(p, 4, 1, 1, 1, 4, 1, 0)))) + (((-1134) * mn(p, 4, 1, 1, 1, 2, 3, 1) + (-108) * mn(p, 4, 1, 1, 0, 4, 2, 1)) + ((324) * mn(p, 4, 1, 1, 0, 2, 4, 2) + ((243) * mn(p, 4, 1, 1, 0, 2, 4, 0) + (324) * mn(p, 4, 0, 2, 2, 3, 1, 0)))))) + (((((-729) * mn(p, 4, 0, 2, 1, 3, 2, 1) + (324) * mn(p, 4, 0, 2, 0, 3, 3, 2)) + ((243) * mn(p, 4, 0, 2, 0, 3, 3, 0) + (216) * mn(p, 3, 3, 0, 3, 0, 3, 0))) + (((216) * mn(p, 3, 3, 0, 2, 2, 2, 0) + (-324) * mn(p, 3, 3, 0, 2, 0, 4, 1)) + ((36) * mn(p, 3, 3, 0, 1, 4, 1, 0) + ((-162) * mn(p, 3, 3, 0, 1, 2, 3, 1) + (162) * mn(p, 3, 3, 0, 1, 0, 5, 2))))) + ((((1) * mn(p, 3, 3, 0, 0, 6, 0, 0) + (-9) * mn(p, 3, 3, 0, 0, 4, 2, 1)) + ((27) * mn(p, 3, 3, 0, 0, 2, 4, 2) + ((-27) * mn(p, 3, 3, 0, 0, 0, 6, 3) + (972) * mn(p, 3, 2, 1, 3, 1, 2, 0)))) + (((378) * mn(p, 3, 2, 1, 2, 3, 1, 0) + (-2106) * mn(p, 3, 2, 1, 2, 1, 3, 1)) + ((18) * mn(p, 3, 2, 1, 1, 5, 0, 0) + ((-540) * mn(p, 3, 2, 1, 1, 3, 2, 1) + (1134) * mn(p, 3, 2, 1, 1, 1, 4, 2))))))) + ((((((972) * mn(p, 3, 2, 1, 1, 1, 4, 0) + (-18) * mn(p, 3, 2, 1, 0, 5, 1, 1)) + ((108) * mn(p, 3, 2, 1, 0, 3, 3, 2) + (162) * mn(p, 3, 2, 1, 0, 3, 3, 0))) + (((-162) * mn(p, 3, 2, 1, 0, 1, 5, 3) + (-324) * mn(p, 3, 2, 1, 0, 1, 5, 1)) + ((864) * mn(p, 3, 1, 2, 3, 2, 1, 0) + ((108) * mn(p, 3, 1, 2, 2, 4, 0, 0) + (-2484) * mn(p, 3, 1, 2, 2, 2, 2, 1))))) + ((((-252) * mn(p, 3, 1, 2, 1, 4, 1, 1) + (1836) * mn(p, 3, 1, 2, 1, 2, 3, 2)) + ((1296) * mn(p, 3, 1, 2, 1, 2, 3, 0) + ((108) * mn(p, 3, 1, 2, 0, 4, 2, 2) + (108) * mn(p, 3, 1, 2, 0, 4, 2, 0)))) + (((-324) * mn(p, 3, 1, 2, 0, 2, 4, 3) + (-972) * mn(p, 3, 1, 2, 0, 2, 4, 1)) + ((216) * mn(p, 3, 0, 3, 3, 3, 0, 0) + ((-864) * mn(p, 3, 0, 3, 2, 3, 1, 1) + (864) * mn(p, 3, 0, 3, 1, 3, 2, 2)))))) + (((((648) * mn(p, 3, 0, 3, 1, 3, 2, 0) + (-216) * mn(p, 3, 0, 3, 0, 3, 3, 3)) + ((-648) * mn(p, 3, 0, 3, 0, 3, 3, 1) + ((108) * mn(p, 2, 4, 0, 3, 1, 2, 0) + (42) * mn(p, 2, 4, 0, 2, 3, 1, 0)))) + (((-108) * mn(p, 2, 4, 0, 2, 1, 3, 1) + (3) * mn(p, 2, 4, 0, 1, 5, 0, 0)) + ((-18) * mn(p, 2, 4, 0, 1, 3, 2, 1) + ((27) * mn(p, 2, 4, 0, 1, 1, 4, 2) + (324) * mn(p, 2, 3, 1, 4, 0, 2, 0))))) + ((((360) * mn(p, 2, 3, 1, 3, 2, 1, 0) + (-972) * mn(p, 2, 3, 1, 3, 0, 3, 1)) + ((45) * mn(p, 2, 3, 1, 2, 4, 0, 0) + ((-666) * mn(p, 2, 3, 1, 2, 2, 2, 1) + (729) * mn(p, 2, 3, 1, 2, 0, 4, 2)))) + (((972) * mn(p, 2, 3, 1, 2, 0, 4, 0) + (-54) * mn(p, 2, 3, 1, 1, 4, 1, 1)) + ((216) * mn(p, 2, 3, 1, 1, 2, 3, 2) + ((432) * mn(p, 2, 3, 1, 1, 2, 3, 0) + (-162) * mn(p, 2, 3, 1, 1, 0, 5, 3)))))))) + (((((((-648) * mn(p, 2, 3, 1, 1, 0, 5, 1) + (27) * mn(p, 2, 3, 1, 0, 4, 2, 0)) + ((-108) * mn(p, 2, 3, 1, 0, 2, 4, 1) + (81) * mn(p, 2, 3, 1, 0, 0, 6, 2))) + (((486) * mn(p, 2, 2, 2, 4, 1, 1, 0) + (180) * mn(p, 2, 2, 2, 3, 3, 0, 0)) + ((-1836) * mn(p, 2, 2, 2, 3, 1, 2, 1) + ((-504) * mn(p, 2, 2, 2, 2, 3, 1, 1) + (1836) * mn(p, 2, 2, 2, 2, 1, 3, 2))))) + ((((1944) * mn(p, 2, 2, 2, 2, 1, 3, 0) + (-3) * mn(p, 2, 2, 2, 1, 5, 0, 1)) + ((270) * mn(p, 2, 2, 2, 1, 3, 2, 2) + ((432) * mn(p, 2, 2, 2, 1, 3, 2, 0) + (-459) * mn(p, 2, 2, 2, 1, 1, 4, 3)))) + (((-2592) * mn(p, 2, 2, 2, 1, 1, 4, 1) + (9) * mn(p, 2, 2, 2, 0, 5, 1, 0)) + ((-270) * mn(p, 2, 2, 2, 0, 3, 3, 1) + ((405) * mn(p, 2, 2, 2, 0, 1, 5, 2) + (486) * mn(p, 2, 2, 2, 0, 1, 5, 0)))))) + (((((108) * mn(p, 2, 1, 3, 4, 2, 0, 0) + (-756) * mn(p, 2, 1, 3, 3, 2, 1, 1)) + ((-36) * mn(p, 2, 1, 3, 2, 4, 0, 1) + (1080) * mn(p, 2, 1, 3, 2, 2, 2, 2))) + (((1296) * mn(p, 2, 1, 3, 2, 2, 2, 0) + (36) * mn(p, 2, 1, 3, 1, 4, 1, 2)) + ((108) * mn(p, 2, 1, 3, 1, 4, 1, 0) + ((-324) * mn(p, 2, 1, 3, 1, 2, 3, 3) + (-2592) * mn(p, 2, 1, 3, 1, 2, 3, 1))))) + ((((-108) * mn(p, 2, 1, 3, 0, 4, 2, 1) + (648) * mn(p, 2, 1, 3, 0, 2, 4, 2)) + ((972) * mn(p, 2, 1, 3, 0, 2, 4, 0) + ((-108) * mn(p, 2, 0, 4, 3, 3, 0, 1) + (270) * mn(p, 2, 0, 4, 2, 3, 1, 2)))) + (((324) * mn(p, 2, 0, 4, 2, 3, 1, 0) + (-108) * mn(p, 2, 0, 4, 1, 3, 2, 3)) + ((-972) * mn(p, 2, 0, 4, 1, 3, 2, 1) + ((324) * mn(p, 2, 0, 4, 0, 3, 3, 2) + (486) * mn(p, 2, 0, 4, 0, 3, 3, 0))))))) + ((((((12) * mn(p, 1, 5, 0, 3, 2, 1, 0) + (2) * mn(p, 1, 5, 0, 2, 4, 0, 0)) + ((-6) * mn(p, 1, 5, 0, 2, 2, 2, 1) + (72) * mn(p, 1, 4, 1, 4, 1, 1, 0))) + (((24) * mn(p, 1, 4, 1, 3, 3, 0, 0) + (-180) * mn(p, 1, 4, 1, 3, 1, 2, 1)) + ((-36) * mn(p, 1, 4, 1, 2, 3, 1, 1) + ((72) * mn(p, 1, 4, 1, 2, 1, 3, 2) + (216) * mn(p, 1, 4, 1, 2, 1, 3, 0))))) + ((((36) * mn(p, 1, 4, 1, 1, 3, 2, 0) + (-54) * mn(p, 1, 4, 1, 1, 1, 4, 1)) + ((108) * mn(p, 1, 3, 2, 5, 0, 1, 0) + ((54) * mn(p, 1, 3, 2, 4, 2, 0, 0) + (-486) * mn(p, 1, 3, 2, 4, 0, 2, 1)))) + (((-216) * mn(p, 1, 3, 2, 3, 2, 1, 1) + (648) * mn(p, 1, 3, 2, 3, 0, 3, 2)) + ((648) * mn(p, 1, 3, 2, 3, 0, 3, 0) + ((-6) * mn(p, 1, 3, 2, 2, 4, 0, 1) + (162) * mn(p, 1, 3, 2, 2, 2, 2, 2)))))) + (((((324) * mn(p, 1, 3, 2, 2, 2, 2, 0) + (-216) * mn(p, 1, 3, 2, 2, 0, 4, 3)) + ((-1458) * mn(p, 1, 3, 2, 2, 0, 4, 1) + ((18) * mn(p, 1, 3, 2, 1, 4, 1, 0) + (-378) * mn(p, 1, 3, 2, 1, 2, 3, 1)))) + (((324) * mn(p, 1, 3, 2, 1, 0, 5, 2) + (972) * mn(p, 1, 3, 2, 1, 0, 5, 0)) + ((162) * mn(p, 1, 3, 2, 0, 2, 4, 0) + ((-108) * mn(p, 1, 2, 3, 4, 1, 1, 1) + (-54) * mn(p, 1, 2, 3, 3, 3, 0, 1))))) + ((((270) * mn(p, 1, 2, 3, 3, 1, 2, 2) + (324) * mn(p, 1, 2, 3, 3, 1, 2, 0)) + ((72) * mn(p, 1, 2, 3, 2, 3, 1, 2) + ((162) * mn(p, 1, 2, 3, 2, 3, 1, 0) + (-108) * mn(p, 1, 2, 3, 2, 1, 3, 3)))) + (((-1134) * mn(p, 1, 2, 3, 2, 1, 3, 1) + (-270) * mn(p, 1, 2, 3, 1, 3, 2, 1)) + ((324) * mn(p, 1, 2, 3, 1, 1, 4, 2) + ((972) * mn(p, 1, 2, 3, 1, 1, 4, 0) + (162) * mn(p, 1, 2, 3, 0, 3, 3, 0))))))))));
    acb_prod7_c1(p);
    assert(c1 * q == ((((((((-162) * mn(p, 3, 2, 1, 0, 1, 5, 1) + (108) * mn(p, 3, 1, 2, 3, 2, 1, 0)) + ((-432) * mn(p, 3, 1, 2, 2, 2, 2, 1) + ((-18) * mn(p, 3, 1, 2, 1, 4, 1, 1) + (270) * mn(p, 3, 1, 2, 1, 2, 3, 2)))) + (((648) * mn(p, 3, 1, 2, 1, 2, 3, 0) + (54) * mn(p, 3, 1, 2, 0, 4, 2, 0)) + ((-486) * mn(p, 3, 1, 2, 0, 2, 4, 1) + ((-108) * mn(p, 3, 0, 3, 2, 3, 1, 1) + (108) * mn(p, 3, 0, 3, 1, 3, 2, 2))))) + ((((324) * mn(p, 3, 0, 3, 1, 3, 2, 0) + (-324) * mn(p, 3, 0, 3, 0, 3, 3, 1)) + ((3) * mn(p, 2, 4, 0, 2, 3, 1, 0) + ((18) * mn(p, 2, 3, 1, 3, 2, 1, 0) + (-36) * mn(p, 2, 3, 1, 2, 2, 2, 1)))) + (((54) * mn(p, 2, 3, 1, 1, 2, 3, 0) + (-324) * mn(p, 2, 3, 1, 1, 0, 5, 1)) + ((-54) * mn(p, 2, 3, 1, 0, 2, 4, 1) + ((162) * mn(p, 2, 3, 1, 0, 0, 6, 2) + (243) * mn(p, 2, 2, 2, 4, 1, 1, 0)))))) + (((((36) * mn(p, 2, 2, 2, 3, 3, 0, 0) + (-1080) * mn(p, 2, 2, 2, 3, 1, 2, 1)) + ((-198) * mn(p, 2, 2, 2, 2, 3, 1, 1) + ((1080) * mn(p, 2, 2, 2, 2, 1, 3, 2) + (1458) * mn(p, 2, 2, 2, 2, 1, 3, 0)))) + (((-6) * mn(p, 2, 2, 2, 1, 5, 0, 1) + (108) * mn(p, 2, 2, 2, 1, 3, 2, 2)) + ((378) * mn(p, 2, 2, 2, 1, 3, 2, 0) + ((-270) * mn(p, 2, 2, 2, 1, 1, 4, 3) + (-2268) * mn(p, 2, 2, 2, 1, 1, 4, 1))))) + ((((18) * mn(p, 2, 2, 2, 0, 5, 1, 0) + (-216) * mn(p, 2, 2, 2, 0, 3, 3, 1)) + ((810) * mn(p, 2, 2, 2, 0, 1, 5, 2) + ((243) * mn(p, 2, 2, 2, 0, 1, 5, 0) + (216) * mn(p, 2, 1, 3, 4, 2, 0, 0)))) + (((-1350) * mn(p, 2, 1, 3, 3, 2, 1, 1) + (-72) * mn(p, 2, 1, 3, 2, 4, 0, 1)) + ((1836) * mn(p, 2, 1, 3, 2, 2, 2, 2) + ((2106) * mn(p, 2, 1, 3, 2, 2, 2, 0) + (72) * mn(p, 2, 1, 3, 1, 4, 1, 2))))))) + ((((((216) * mn(p, 2, 1, 3, 1, 4, 1, 0) + (-648) * mn(p, 2, 1, 3, 1, 2, 3, 3)) + ((-3726) * mn(p, 2, 1, 3, 1, 2, 3, 1) + ((-216) * mn(p, 2, 1, 3, 0, 4, 2, 1) + (1296) * mn(p, 2, 1, 3, 0, 2, 4, 2)))) + (((486) * mn(p, 2, 1, 3, 0, 2, 4, 0) + (-216) * mn(p, 2, 0, 4, 3, 3, 0, 1)) + ((459) * mn(p, 2, 0, 4, 2, 3, 1, 2) + ((648) * mn(p, 2, 0, 4, 2, 3, 1, 0) + (-216) * mn(p, 2, 0, 4, 1, 3, 2, 3))))) + ((((-1458) * mn(p, 2, 0, 4, 1, 3, 2, 1) + (648) * mn(p, 2, 0, 4, 0, 3, 3, 2)) + ((243) * mn(p, 2, 0, 4, 0, 3, 3, 0) + ((6) * mn(p, 1, 5, 0, 3, 2, 1, 0) + (1) * mn(p, 1, 5, 0, 2, 4, 0, 0)))) + (((-3) * mn(p, 1, 5, 0, 2, 2, 2, 1) + (36) * mn(p, 1, 4, 1, 4, 1, 1, 0)) + ((12) * mn(p, 1, 4, 1, 3, 3, 0, 0) + ((-90) * mn(p, 1, 4, 1, 3, 1, 2, 1) + (-18) * mn(p, 1, 4, 1, 2, 3, 1, 1)))))) + (((((36) * mn(p, 1, 4, 1, 2, 1, 3, 2) + (108) * mn(p, 1, 4, 1, 2, 1, 3, 0)) + ((18) * mn(p, 1, 4, 1, 1, 3, 2, 0) + ((-108) * mn(p, 1, 4, 1, 1, 1, 4, 1) + (54) * mn(p, 1, 3, 2, 5, 0, 1, 0)))) + (((81) * mn(p, 1, 3, 2, 4, 2, 0, 0) + (-243) * mn(p, 1, 3, 2, 4, 0, 2, 1)) + ((-324) * mn(p, 1, 3, 2, 3, 2, 1, 1) + ((324) * mn(p, 1, 3, 2, 3, 0, 3, 2) + (324) * mn(p, 1, 3, 2, 3, 0, 3, 0))))) + ((((-12) * mn(p, 1, 3, 2, 2, 4, 0, 1) + (216) * mn(p, 1, 3, 2, 2, 2, 2, 2)) + ((486) * mn(p, 1, 3, 2, 2, 2, 2, 0) + ((-108) * mn(p, 1, 3, 2, 2, 0, 4, 3) + (-972) * mn(p, 1, 3, 2, 2, 0, 4, 1)))) + (((36) * mn(p, 1, 3, 2, 1, 4, 1, 0) + ((-432) * mn(p, 1, 3, 2, 1, 2, 3, 1) + (648) * mn(p, 1, 3, 2, 1, 0, 5, 2))) + ((486) * mn(p, 1, 3, 2, 1, 0, 5, 0) + ((81) * mn(p, 1, 3, 2, 0, 2, 4, 0) + (-729) * mn(p, 1, 3, 2, 0, 0, 6, 1)))))))) + (((((((162) * mn(p, 1, 2, 3, 5, 1, 0, 0) + (-1026) * mn(p, 1, 2, 3, 4, 1, 1, 1)) + ((-108) * mn(p, 1, 2, 3, 3, 3, 0, 1) + ((1836) * mn(p, 1, 2, 3, 3, 1, 2, 2) + (1620) * mn(p, 1, 2, 3, 3, 1, 2, 0)))) + (((144) * mn(p, 1, 2, 3, 2, 3, 1, 2) + (324) * mn(p, 1, 2, 3, 2, 3, 1, 0)) + ((-864) * mn(p, 1, 2, 3, 2, 1, 3, 3) + ((-5184) * mn(p, 1, 2, 3, 2, 1, 3, 1) + (-540) * mn(p, 1, 2, 3, 1, 3, 2, 1))))) + ((((3078) * mn(p, 1, 2, 3, 1, 1, 4, 2) + (3402) * mn(p, 1, 2, 3, 1, 1, 4, 0)) + ((324) * mn(p, 1, 2, 3, 0, 3, 3, 0) + ((-2916) * mn(p, 1, 2, 3, 0, 1, 5, 1) + (-324) * mn(p, 1, 1, 4, 4, 2, 0, 1)))) + (((1134) * mn(p, 1, 1, 4, 3, 2, 1, 2) + (972) * mn(p, 1, 1, 4, 3, 2, 1, 0)) + ((27) * mn(p, 1, 1, 4, 2, 4, 0, 2) + ((-729) * mn(p, 1, 1, 4, 2, 2, 2, 3) + (-4860) * mn(p, 1, 1, 4, 2, 2, 2, 1)))))) + (((((-162) * mn(p, 1, 1, 4, 1, 4, 1, 1) + (3402) * mn(p, 1, 1, 4, 1, 2, 3, 2)) + ((4374) * mn(p, 1, 1, 4, 1, 2, 3, 0) + ((243) * mn(p, 1, 1, 4, 0, 4, 2, 0) + (-3645) * mn(p, 1, 1, 4, 0, 2, 4, 1)))) + (((162) * mn(p, 1, 0, 5, 3, 3, 0, 2) + (-162) * mn(p, 1, 0, 5, 2, 3, 1, 3)) + ((-972) * mn(p, 1, 0, 5, 2, 3, 1, 1) + ((972) * mn(p, 1, 0, 5, 1, 3, 2, 2) + (1458) * mn(p, 1, 0, 5, 1, 3, 2, 0))))) + ((((-1458) * mn(p, 1, 0, 5, 0, 3, 3, 1) + (1) * mn(p, 0, 6, 0, 3, 3, 0, 0)) + ((9) * mn(p, 0, 5, 1, 4, 2, 0, 0) + ((-18) * mn(p, 0, 5, 1, 3, 2, 1, 1) + (27) * mn(p, 0, 5, 1, 2, 2, 2, 0)))) + (((27) * mn(p, 0, 4, 2, 5, 1, 0, 0) + (-108) * mn(p, 0, 4, 2, 4, 1, 1, 1)) + ((-9) * mn(p, 0, 4, 2, 3, 3, 0, 1) + ((108) * mn(p, 0, 4, 2, 3, 1, 2, 2) + (162) * mn(p, 0, 4, 2, 3, 1, 2, 0))))))) + ((((((27) * mn(p, 0, 4, 2, 2, 3, 1, 0) + (-324) * mn(p, 0, 4, 2, 2, 1, 3, 1)) + ((243) * mn(p, 0, 4, 2, 1, 1, 4, 0) + ((27) * mn(p, 0, 3, 3, 6, 0, 0, 0) + (-162) * mn(p, 0, 3, 3, 5, 0, 1, 1)))) + (((-54) * mn(p, 0, 3, 3, 4, 2, 0, 1) + (324) * mn(p, 0, 3, 3, 4, 0, 2, 2)) + ((243) * mn(p, 0, 3, 3, 4, 0, 2, 0) + ((108) * mn(p, 0, 3, 3, 3, 2, 1, 2) + (162) * mn(p, 0, 3, 3, 3, 2, 1, 0))))) + ((((-216) * mn(p, 0, 3, 3, 3, 0, 3, 3) + (-972) * mn(p, 0, 3, 3, 3, 0, 3, 1)) + ((-486) * mn(p, 0, 3, 3, 2, 2, 2, 1) + ((972) * mn(p, 0, 3, 3, 2, 0, 4, 2) + (729) * mn(p, 0, 3, 3, 2, 0, 4, 0)))) + (((486) * mn(p, 0, 3, 3, 1, 2, 3, 0) + (-1458) * mn(p, 0, 3, 3, 1, 0, 5, 1)) + ((729) * mn(p, 0, 3, 3, 0, 0, 6, 0) + ((-81) * mn(p, 0, 2, 4, 5, 1, 0, 1) + (324) * mn(p, 0, 2, 4, 4, 1, 1, 2)))))) + (((((243) * mn(p, 0, 2, 4, 4, 1, 1, 0) + (27) * mn(p, 0, 2, 4, 3, 3, 0, 2)) + ((-324) * mn(p, 0, 2, 4, 3, 1, 2, 3) + ((-1458) * mn(p, 0, 2, 4, 3, 1, 2, 1) + (-162) * mn(p, 0, 2, 4, 2, 3, 1, 1)))) + (((1944) * mn(p, 0, 2, 4, 2, 1, 3, 2) + (1458) * mn(p, 0, 2, 4, 2, 1, 3, 0)) + ((243) * mn(p, 0, 2, 4, 1, 3, 2, 0) + ((-3645) * mn(p, 0, 2, 4, 1, 1, 4, 1) + (2187) * mn(p, 0, 2, 4, 0, 1, 5, 0))))) + ((((81) * mn(p, 0, 1, 5, 4, 2, 0, 2) + (-162) * mn(p, 0, 1, 5, 3, 2, 1, 3)) + ((-486) * mn(p, 0, 1, 5, 3, 2, 1, 1) + ((1215) * mn(p, 0, 1, 5, 2, 2, 2, 2) + (729) * mn(p, 0, 1, 5, 2, 2, 2, 0)))) + (((-2916) * mn(p, 0, 1, 5, 1, 2, 3, 1) + ((2187) * mn(p, 0, 1, 5, 0, 2, 4, 0) + (-27) * mn(p, 0, 0, 6, 3, 3, 0, 3))) + ((243) * mn(p, 0, 0, 6, 2, 3, 1, 2) + ((-729) * mn(p, 0, 0, 6, 1, 3, 2, 1) + (729) * mn(p, 0, 0, 6, 0, 3, 3, 0))))))))));
    assert(cc1 * q == ((((((((27) * mn(p, 6, 0, 0, 0, 3, 3, 0) + ((162) * mn(p, 5, 1, 0, 1, 2, 3, 0) + (27) * mn(p, 5, 1, 0, 0, 4, 2, 0))) + (((-81) * mn(p, 5, 1, 0, 0, 2, 4, 1) + (162) * mn(p, 5, 0, 1, 1, 3, 2, 0)) + ((-162) * mn(p, 5, 0, 1, 0, 3, 3, 1) + (324) * mn(p, 4, 2, 0, 2, 1, 3, 0)))) + (((135) * mn(p, 4, 2, 0, 1, 3, 2, 0) + ((-324) * mn(p, 4, 2, 0, 1, 1, 4, 1) + (9) * mn(p, 4, 2, 0, 0, 5, 1, 0))) + (((-54) * mn(p, 4, 2, 0, 0, 3, 3, 1) + (81) * mn(p, 4, 2, 0, 0, 1, 5, 2)) + ((729) * mn(p, 4, 1, 1, 2, 2, 2, 0) + (108) * mn(p, 4, 1, 1, 1, 4, 1, 0))))) + ((((-1134) * mn(p, 4, 1, 1, 1, 2, 3, 1) + ((-108) * mn(p, 4, 1, 1, 0, 4, 2, 1) + (324) * mn(p, 4, 1, 1, 0, 2, 4, 2))) + (((243) * mn(p, 4, 1, 1, 0, 2, 4, 0) + (324) * mn(p, 4, 0, 2, 2, 3, 1, 0)) + ((-729) * mn(p, 4, 0, 2, 1, 3, 2, 1) + (324) * mn(p, 4, 0, 2, 0, 3, 3, 2)))) + (((243) * mn(p, 4, 0, 2, 0, 3, 3, 0) + ((216) * mn(p, 3, 3, 0, 3, 0, 3, 0) + (216) * mn(p, 3, 3, 0, 2, 2, 2, 0))) + (((-324) * mn(p, 3, 3, 0, 2, 0, 4, 1) + (36) * mn(p, 3, 3, 0, 1, 4, 1, 0)) + ((-162) * mn(p, 3, 3, 0, 1, 2, 3, 1) + (162) * mn(p, 3, 3, 0, 1, 0, 5, 2)))))) + (((((1) * mn(p, 3, 3, 0, 0, 6, 0, 0) + ((-9) * mn(p, 3, 3, 0, 0, 4, 2, 1) + (27) * mn(p, 3, 3, 0, 0, 2, 4, 2))) + (((-27) * mn(p, 3, 3, 0, 0, 0, 6, 3) + (972) * mn(p, 3, 2, 1, 3, 1, 2, 0)) + ((378) * mn(p, 3, 2, 1, 2, 3, 1, 0) + (-2106) * mn(p, 3, 2, 1, 2, 1, 3, 1)))) + (((18) * mn(p, 3, 2, 1, 1, 5, 0, 0) + ((-540) * mn(p, 3, 2, 1, 1, 3, 2, 1) + (1134) * mn(p, 3, 2, 1, 1, 1, 4, 2))) + (((972) * mn(p, 3, 2, 1, 1, 1, 4, 0) + (-18) * mn(p, 3, 2, 1, 0, 5, 1, 1)) + ((108) * mn(p, 3, 2, 1, 0, 3, 3, 2) + (162) * mn(p, 3, 2, 1, 0, 3, 3, 0))))) + ((((-162) * mn(p, 3, 2, 1, 0, 1, 5, 3) + ((-486) * mn(p, 3, 2, 1, 0, 1, 5, 1) + (972) * mn(p, 3, 1, 2, 3, 2, 1, 0))) + (((108) * mn(p, 3, 1, 2, 2, 4, 0, 0) + (-2916) * mn(p, 3, 1, 2, 2, 2, 2, 1)) + ((-270) * mn(p, 3, 1, 2, 1, 4, 1, 1) + (2106) * mn(p, 3, 1, 2, 1, 2, 3, 2)))) + (((1944) * mn(p, 3, 1, 2, 1, 2, 3, 0) + ((108) * mn(p, 3, 1, 2, 0, 4, 2, 2) + (162) * mn(p, 3, 1, 2, 0, 4, 2, 0))) + (((-324) * mn(p, 3, 1, 2, 0, 2, 4, 3) + (-1458) * mn(p, 3, 1, 2, 0, 2, 4, 1)) + ((216) * mn(p, 3, 0, 3, 3, 3, 0, 0) + (-972) * mn(p, 3, 0, 3, 2, 3, 1, 1))))))) + ((((((972) * mn(p, 3, 0, 3, 1, 3, 2, 2) + ((972) * mn(p, 3, 0, 3, 1, 3, 2, 0) + (-216) * mn(p, 3, 0, 3, 0, 3, 3, 3))) + (((-972) * mn(p, 3, 0, 3, 0, 3, 3, 1) + (108) * mn(p, 2, 4, 0, 3, 1, 2, 0)) + ((45) * mn(p, 2, 4, 0, 2, 3, 1, 0) + (-108) * mn(p, 2, 4, 0, 2, 1, 3, 1)))) + (((3) * mn(p, 2, 4, 0, 1, 5, 0, 0) + ((-18) * mn(p, 2, 4, 0, 1, 3, 2, 1) + (27) * mn(p, 2, 4, 0, 1, 1, 4, 2))) + (((324) * mn(p, 2, 3, 1, 4, 0, 2, 0) + (378) * mn(p, 2, 3, 1, 3, 2, 1, 0)) + ((-972) * mn(p, 2, 3, 1, 3, 0, 3, 1) + (45) * mn(p, 2, 3, 1, 2, 4, 0, 0))))) + ((((-702) * mn(p, 2, 3, 1, 2, 2, 2, 1) + ((729) * mn(p, 2, 3, 1, 2, 0, 4, 2) + (972) * mn(p, 2, 3, 1, 2, 0, 4, 0))) + (((-54) * mn(p, 2, 3, 1, 1, 4, 1, 1) + (216) * mn(p, 2, 3, 1, 1, 2, 3, 2)) + ((486) * mn(p, 2, 3, 1, 1, 2, 3, 0) + (-162) * mn(p, 2, 3, 1, 1, 0, 5, 3)))) + (((-972) * mn(p, 2, 3, 1, 1, 0, 5, 1) + ((27) * mn(p, 2, 3, 1, 0, 4, 2, 0) + (-162) * mn(p, 2, 3, 1, 0, 2, 4, 1))) + (((243) * mn(p, 2, 3, 1, 0, 0, 6, 2) + (729) * mn(p, 2, 2, 2, 4, 1, 1, 0)) + ((216) * mn(p, 2, 2, 2, 3, 3, 0, 0) + (-2916) * mn(p, 2, 2, 2, 3, 1, 2, 1)))))) + (((((-702) * mn(p, 2, 2, 2, 2, 3, 1, 1) + ((2916) * mn(p, 2, 2, 2, 2, 1, 3, 2) + (3402) * mn(p, 2, 2, 2, 2, 1, 3, 0))) + (((-9) * mn(p, 2, 2, 2, 1, 5, 0, 1) + (378) * mn(p, 2, 2, 2, 1, 3, 2, 2)) + ((810) * mn(p, 2, 2, 2, 1, 3, 2, 0) + (-729) * mn(p, 2, 2, 2, 1, 1, 4, 3)))) + (((-4860) * mn(p, 2, 2, 2, 1, 1, 4, 1) + ((27) * mn(p, 2, 2, 2, 0, 5, 1, 0) + (-486) * mn(p, 2, 2, 2, 0, 3, 3, 1))) + (((1215) * mn(p, 2, 2, 2, 0, 1, 5, 2) + (729) * mn(p, 2, 2, 2, 0, 1, 5, 0)) + ((324) * mn(p, 2, 1, 3, 4, 2, 0, 0) + (-2106) * mn(p, 2, 1, 3, 3, 2, 1, 1))))) + ((((-108) * mn(p, 2, 1, 3, 2, 4, 0, 1) + ((2916) * mn(p, 2, 1, 3, 2, 2, 2, 2) + (3402) * mn(p, 2, 1, 3, 2, 2, 2, 0))) + (((108) * mn(p, 2, 1, 3, 1, 4, 1, 2) + (324) * mn(p, 2, 1, 3, 1, 4, 1, 0)) + ((-972) * mn(p, 2, 1, 3, 1, 2, 3, 3) + (-6318) * mn(p, 2, 1, 3, 1, 2, 3, 1)))) + (((-324) * mn(p, 2, 1, 3, 0, 4, 2, 1) + ((1944) * mn(p, 2, 1, 3, 0, 2, 4, 2) + (1458) * mn(p, 2, 1, 3, 0, 2, 4, 0))) + (((-324) * mn(p, 2, 0, 4, 3, 3, 0, 1) + (729) * mn(p, 2, 0, 4, 2, 3, 1, 2)) + ((972) * mn(p, 2, 0, 4, 2, 3, 1, 0) + (-324) * mn(p, 2, 0, 4, 1, 3, 2, 3)))))))) + (((((((-2430) * mn(p, 2, 0, 4, 1, 3, 2, 1) + ((972) * mn(p, 2, 0, 4, 0, 3, 3, 2) + (729) * mn(p, 2, 0, 4, 0, 3, 3, 0))) + (((18) * mn(p, 1, 5, 0, 3, 2, 1, 0) + (3) * mn(p, 1, 5, 0, 2, 4, 0, 0)) + ((-9) * mn(p, 1, 5, 0, 2, 2, 2, 1) + (108) * mn(p, 1, 4, 1, 4, 1, 1, 0)))) + (((36) * mn(p, 1, 4, 1, 3, 3, 0, 0) + ((-270) * mn(p, 1, 4, 1, 3, 1, 2, 1) + (-54) * mn(p, 1, 4, 1, 2, 3, 1, 1))) + (((108) * mn(p, 1, 4, 1, 2, 1, 3, 2) + (324) * mn(p, 1, 4, 1, 2, 1, 3, 0)) + ((54) * mn(p, 1, 4, 1, 1, 3, 2, 0) + (-162) * mn(p, 1, 4, 1, 1, 1, 4, 1))))) + ((((162) * mn(p, 1, 3, 2, 5, 0, 1, 0) + ((135) * mn(p, 1, 3, 2, 4, 2, 0, 0) + (-729) * mn(p, 1, 3, 2, 4, 0, 2, 1))) + (((-540) * mn(p, 1, 3, 2, 3, 2, 1, 1) + (972) * mn(p, 1, 3, 2, 3, 0, 3, 2)) + ((972) * mn(p, 1, 3, 2, 3, 0, 3, 0) + (-18) * mn(p, 1, 3, 2, 2, 4, 0, 1)))) + (((378) * mn(p, 1, 3, 2, 2, 2, 2, 2) + ((810) * mn(p, 1, 3, 2, 2, 2, 2, 0) + (-324) * mn(p, 1, 3, 2, 2, 0, 4, 3))) + (((-2430) * mn(p, 1, 3, 2, 2, 0, 4, 1) + (54) * mn(p, 1, 3, 2, 1, 4, 1, 0)) + ((-810) * mn(p, 1, 3, 2, 1, 2, 3, 1) + (972) * mn(p, 1, 3, 2, 1, 0, 5, 2)))))) + (((((1458) * mn(p, 1, 3, 2, 1, 0, 5, 0) + ((243) * mn(p, 1, 3, 2, 0, 2, 4, 0) + (-729) * mn(p, 1, 3, 2, 0, 0, 6, 1))) + (((162) * mn(p, 1, 2, 3, 5, 1, 0, 0) + (-1134) * mn(p, 1, 2, 3, 4, 1, 1, 1)) + ((-162) * mn(p, 1, 2, 3, 3, 3, 0, 1) + (2106) * mn(p, 1, 2, 3, 3, 1, 2, 2)))) + (((1944) * mn(p, 1, 2, 3, 3, 1, 2, 0) + ((216) * mn(p, 1, 2, 3, 2, 3, 1, 2) + (486) * mn(p, 1, 2, 3, 2, 3, 1, 0))) + (((-972) * mn(p, 1, 2, 3, 2, 1, 3, 3) + (-6318) * mn(p, 1, 2, 3, 2, 1, 3, 1)) + ((-810) * mn(p, 1, 2, 3, 1, 3, 2, 1) + (3402) * mn(p, 1, 2, 3, 1, 1, 4, 2))))) + ((((4374) * mn(p, 1, 2, 3, 1, 1, 4, 0) + ((486) * mn(p, 1, 2, 3, 0, 3, 3, 0) + (-2916) * mn(p, 1, 2, 3, 0, 1, 5, 1))) + (((-324) * mn(p, 1, 1, 4, 4, 2, 0, 1) + (1134) * mn(p, 1, 1, 4, 3, 2, 1, 2)) + ((972) * mn(p, 1, 1, 4, 3, 2, 1, 0) + (27) * mn(p, 1, 1, 4, 2, 4, 0, 2)))) + (((-729) * mn(p, 1, 1, 4, 2, 2, 2, 3) + ((-4860) * mn(p, 1, 1, 4, 2, 2, 2, 1) + (-162) * mn(p, 1, 1, 4, 1, 4, 1, 1))) + (((3402) * mn(p, 1, 1, 4, 1, 2, 3, 2) + (4374) * mn(p, 1, 1, 4, 1, 2, 3, 0)) + ((243) * mn(p, 1, 1, 4, 0, 4, 2, 0) + (-3645) * mn(p, 1, 1, 4, 0, 2, 4, 1))))))) + ((((((162) * mn(p, 1, 0, 5, 3, 3, 0, 2) + ((-162) * mn(p, 1, 0, 5, 2, 3, 1, 3) + (-972) * mn(p, 1, 0, 5, 2, 3, 1, 1))) + (((972) * mn(p, 1, 0, 5, 1, 3, 2, 2) + (1458) * mn(p, 1, 0, 5, 1, 3, 2, 0)) + ((-1458) * mn(p, 1, 0, 5, 0, 3, 3, 1) + (1) * mn(p, 0, 6, 0, 3, 3, 0, 0)))) + (((9) * mn(p, 0, 5, 1, 4, 2, 0, 0) + ((-18) * mn(p, 0, 5, 1, 3, 2, 1, 1) + (27) * mn(p, 0, 5, 1, 2, 2, 2, 0))) + (((27) * mn(p, 0, 4, 2, 5, 1, 0, 0) + (-108) * mn(p, 0, 4, 2, 4, 1, 1, 1)) + ((-9) * mn(p, 0, 4, 2, 3, 3, 0, 1) + (108) * mn(p, 0, 4, 2, 3, 1, 2, 2))))) + ((((162) * mn(p, 0, 4, 2, 3, 1, 2, 0) + ((27) * mn(p, 0, 4, 2, 2, 3, 1, 0) + (-324) * mn(p, 0, 4, 2, 2, 1, 3, 1))) + (((243) * mn(p, 0, 4, 2, 1, 1, 4, 0) + (27) * mn(p, 0, 3, 3, 6, 0, 0, 0)) + ((-162) * mn(p, 0, 3, 3, 5, 0, 1, 1) + (-54) * mn(p, 0, 3, 3, 4, 2, 0, 1)))) + (((324) * mn(p, 0, 3, 3, 4, 0, 2, 2) + ((243) * mn(p, 0, 3, 3, 4, 0, 2, 0) + (108) * mn(p, 0, 3, 3, 3, 2, 1, 2))) + (((162) * mn(p, 0, 3, 3, 3, 2, 1, 0) + (-216) * mn(p, 0, 3, 3, 3, 0, 3, 3)) + ((-972) * mn(p, 0, 3, 3, 3, 0, 3, 1) + (-486) * mn(p, 0, 3, 3, 2, 2, 2, 1)))))) + (((((972) * mn(p, 0, 3, 3, 2, 0, 4, 2) + ((729) * mn(p, 0, 3, 3, 2, 0, 4, 0) + (486) * mn(p, 0, 3, 3, 1, 2, 3, 0))) + (((-1458) * mn(p, 0, 3, 3, 1, 0, 5, 1) + (729) * mn(p, 0, 3, 3, 0, 0, 6, 0)) + ((-81) * mn(p, 0, 2, 4, 5, 1, 0, 1) + (324) * mn(p, 0, 2, 4, 4, 1, 1, 2)))) + (((243) * mn(p, 0, 2, 4, 4, 1, 1, 0) + ((27) * mn(p, 0, 2, 4, 3, 3, 0, 2) + (-324) * mn(p, 0, 2, 4, 3, 1, 2, 3))) + (((-1458) * mn(p, 0, 2, 4, 3, 1, 2, 1) + (-162) * mn(p, 0, 2, 4, 2, 3, 1, 1)) + ((1944) * mn(p, 0, 2, 4, 2, 1, 3, 2) + (1458) * mn(p, 0, 2, 4, 2, 1, 3, 0))))) + ((((243) * mn(p, 0, 2, 4, 1, 3, 2, 0) + ((-3645) * mn(p, 0, 2, 4, 1, 1, 4, 1) + (2187) * mn(p, 0, 2, 4, 0, 1, 5, 0))) + (((81) * mn(p, 0, 1, 5, 4, 2, 0, 2) + (-162) * mn(p, 0, 1, 5, 3, 2, 1, 3)) + ((-486) * mn(p, 0, 1, 5, 3, 2, 1, 1) + (1215) * mn(p, 0, 1, 5, 2, 2, 2, 2)))) + (((729) * mn(p, 0, 1, 5, 2, 2, 2, 0) + ((-2916) * mn(p, 0, 1, 5, 1, 2, 3, 1) + (2187) * mn(p, 0, 1, 5, 0, 2, 4, 0))) + (((-27) * mn(p, 0, 0, 6, 3, 3, 0, 3) + (243) * mn(p, 0, 0, 6, 2, 3, 1, 2)) + ((-729) * mn(p, 0, 0, 6, 1, 3, 2, 1) + (729) * mn(p, 0, 0, 6, 0, 3, 3, 0))))))))));
}

#[verifier::rlimit(100)]
proof fn acb_prod7_c0(p: Pt)
    ensures
        (((((((9) * mn(p, 4, 0, 0, 0, 2, 2, 0) + (36) * mn(p, 3, 1, 0, 1, 1, 2, 0)) + ((6) * mn(p, 3, 1, 0, 0, 3, 1, 0) + (-18) * mn(p, 3, 1, 0, 0, 1, 3, 1))) + (((36) * mn(p, 3, 0, 1, 1, 2, 1, 0) + (-36) * mn(p, 3, 0, 1, 0, 2, 2, 1)) + ((36) * mn(p, 2, 2, 0, 2, 0, 2, 0) + (18) * mn(p, 2, 2, 0, 1, 2, 1, 0)))) + ((((-36) * mn(p, 2, 2, 0, 1, 0, 3, 1) + (1) * mn(p, 2, 2, 0, 0, 4, 0, 0)) + ((-6) * mn(p, 2, 2, 0, 0, 2, 2, 1) + (9) * mn(p, 2, 2, 0, 0, 0, 4, 2))) + (((90) * mn(p, 2, 1, 1, 2, 1, 1, 0) + (12) * mn(p, 2, 1, 1, 1, 3, 0, 0)) + ((-144) * mn(p, 2, 1, 1, 1, 1, 2, 1) + (-12) * mn(p, 2, 1, 1, 0, 3, 1, 1))))) + (((((36) * mn(p, 2, 1, 1, 0, 1, 3, 2) + (54) * mn(p, 2, 1, 1, 0, 1, 3, 0)) + ((36) * mn(p, 2, 0, 2, 2, 2, 0, 0) + (-90) * mn(p, 2, 0, 2, 1, 2, 1, 1))) + (((36) * mn(p, 2, 0, 2, 0, 2, 2, 2) + (54) * mn(p, 2, 0, 2, 0, 2, 2, 0)) + ((12) * mn(p, 1, 3, 0, 2, 1, 1, 0) + (2) * mn(p, 1, 3, 0, 1, 3, 0, 0)))) + ((((-6) * mn(p, 1, 3, 0, 1, 1, 2, 1) + (36) * mn(p, 1, 2, 1, 3, 0, 1, 0)) + ((18) * mn(p, 1, 2, 1, 2, 2, 0, 0) + (-90) * mn(p, 1, 2, 1, 2, 0, 2, 1))) + (((-24) * mn(p, 1, 2, 1, 1, 2, 1, 1) + (36) * mn(p, 1, 2, 1, 1, 0, 3, 2)) + ((108) * mn(p, 1, 2, 1, 1, 0, 3, 0) + (18) * mn(p, 1, 2, 1, 0, 2, 2, 0))))))) * (((((3) * mn(p, 2, 0, 0, 0, 1, 1, 0) + ((6) * mn(p, 1, 1, 0, 1, 0, 1, 0) + (1) * mn(p, 1, 1, 0, 0, 2, 0, 0))) + ((-3) * mn(p, 1, 1, 0, 0, 0, 2, 1) + ((6) * mn(p, 1, 0, 1, 1, 1, 0, 0) + (-6) * mn(p, 1, 0, 1, 0, 1, 1, 1)))) + (((1) * mn(p, 0, 2, 0, 1, 1, 0, 0) + ((3) * mn(p, 0, 1, 1, 2, 0, 0, 0) + (-6) * mn(p, 0, 1, 1, 1, 0, 1, 1))) + ((9) * mn(p, 0, 1, 1, 0, 0, 2, 0) + ((-3) * mn(p, 0, 0, 2, 1, 1, 0, 1) + (9) * mn(p, 0, 0, 2, 0, 1, 1, 0)))))) == ((((((((27) * mn(p, 6, 0, 0, 0, 3, 3, 0) + (162) * mn(p, 5, 1, 0, 1, 2, 3, 0)) + ((27) * mn(p, 5, 1, 0, 0, 4, 2, 0) + (-81) * mn(p, 5, 1, 0, 0, 2, 4, 1))) + (((162) * mn(p, 5, 0, 1, 1, 3, 2, 0) + (-162) * mn(p, 5, 0, 1, 0, 3, 3, 1)) + ((324) * mn(p, 4, 2, 0, 2, 1, 3, 0) + ((135) * mn(p, 4, 2, 0, 1, 3, 2, 0) + (-324) * mn(p, 4, 2, 0, 1, 1, 4, 1))))) + ((((9) * mn(p, 4, 2, 0, 0, 5, 1, 0) + (-54) * mn(p, 4, 2, 0, 0, 3, 3, 1)) + ((81) * mn(p, 4, 2, 0, 0, 1, 5, 2) + ((729) * mn(p, 4, 1, 1, 2, 2, 2, 0) + (108) * mn(p, 4, 1, 1, 1, 4, 1, 0)))) + (((-1134) * mn(p, 4, 1, 1, 1, 2, 3, 1) + (-108) * mn(p, 4, 1, 1, 0, 4, 2, 1)) + ((324) * mn(p, 4, 1, 1, 0, 2, 4, 2) + ((243) * mn(p, 4, 1, 1, 0, 2, 4, 0) + (324) * mn(p, 4, 0, 2, 2, 3, 1, 0)))))) + (((((-729) * mn(p, 4, 0, 2, 1, 3, 2, 1) + (324) * mn(p, 4, 0, 2, 0, 3, 3, 2)) + ((243) * mn(p, 4, 0, 2, 0, 3, 3, 0) + (216) * mn(p, 3, 3, 0, 3, 0, 3, 0))) + (((216) * mn(p, 3, 3, 0, 2, 2, 2, 0) + (-324) * mn(p, 3, 3, 0, 2, 0, 4, 1)) + ((36) * mn(p, 3, 3, 0, 1, 4, 1, 0) + ((-162) * mn(p, 3, 3, 0, 1, 2, 3, 1) + (162) * mn(p, 3, 3, 0, 1, 0, 5, 2))))) + ((((1) * mn(p, 3, 3, 0, 0, 6, 0, 0) + (-9) * mn(p, 3, 3, 0, 0, 4, 2, 1)) + ((27) * mn(p, 3, 3, 0, 0, 2, 4, 2) + ((-27) * mn(p, 3, 3, 0, 0, 0, 6, 3) + (972) * mn(p, 3, 2, 1, 3, 1, 2, 0)))) + (((378) * mn(p, 3, 2, 1, 2, 3, 1, 0) + (-2106) * mn(p, 3, 2, 1, 2, 1, 3, 1)) + ((18) * mn(p, 3, 2, 1, 1, 5, 0, 0) + ((-540) * mn(p, 3, 2, 1, 1, 3, 2, 1) + (1134) * mn(p, 3, 2, 1, 1, 1, 4, 2))))))) + ((((((972) * mn(p, 3, 2, 1, 1, 1, 4, 0) + (-18) * mn(p, 3, 2, 1, 0, 5, 1, 1)) + ((108) * mn(p, 3, 2, 1, 0, 3, 3, 2) + (162) * mn(p, 3, 2, 1, 0, 3, 3, 0))) + (((-162) * mn(p, 3, 2, 1, 0, 1, 5, 3) + (-324) * mn(p, 3, 2, 1, 0, 1, 5, 1)) + ((864) * mn(p, 3, 1, 2, 3, 2, 1, 0) + ((108) * mn(p, 3, 1, 2, 2, 4, 0, 0) + (-2484) * mn(p, 3, 1, 2, 2, 2, 2, 1))))) + ((((-252) * mn(p, 3, 1, 2, 1, 4, 1, 1) + (1836) * mn(p, 3, 1, 2, 1, 2, 3, 2)) + ((1296) * mn(p, 3, 1, 2, 1, 2, 3, 0) + ((108) * mn(p, 3, 1, 2, 0, 4, 2, 2) + (108) * mn(p, 3, 1, 2, 0, 4, 2, 0)))) + (((-324) * mn(p, 3, 1, 2, 0, 2, 4, 3) + (-972) * mn(p, 3, 1, 2, 0, 2, 4, 1)) + ((216) * mn(p, 3, 0, 3, 3, 3, 0, 0) + ((-864) * mn(p, 3, 0, 3, 2, 3, 1, 1) + (864) * mn(p, 3, 0, 3, 1, 3, 2, 2)))))) + (((((648) * mn(p, 3, 0, 3, 1, 3, 2, 0) + (-216) * mn(p, 3, 0, 3, 0, 3, 3, 3)) + ((-648) * mn(p, 3, 0, 3, 0, 3, 3, 1) + ((108) * mn(p, 2, 4, 0, 3, 1, 2, 0) + (42) * mn(p, 2, 4, 0, 2, 3, 1, 0)))) + (((-108) * mn(p, 2, 4, 0, 2, 1, 3, 1) + (3) * mn(p, 2, 4, 0, 1, 5, 0, 0)) + ((-18) * mn(p, 2, 4, 0, 1, 3, 2, 1) + ((27) * mn(p, 2, 4, 0, 1, 1, 4, 2) + (324) * mn(p, 2, 3, 1, 4, 0, 2, 0))))) + ((((360) * mn(p, 2, 3, 1, 3, 2, 1, 0) + (-972) * mn(p, 2, 3, 1, 3, 0, 3, 1)) + ((45) * mn(p, 2, 3, 1, 2, 4, 0, 0) + ((-666) * mn(p, 2, 3, 1, 2, 2, 2, 1) + (729) * mn(p, 2, 3, 1, 2, 0, 4, 2)))) + (((972) * mn(p, 2, 3, 1, 2, 0, 4, 0) + (-54) * mn(p, 2, 3, 1, 1, 4, 1, 1)) + ((216) * mn(p, 2, 3, 1, 1, 2, 3, 2) + ((432) * mn(p, 2, 3, 1, 1, 2, 3, 0) + (-162) * mn(p, 2, 3, 1, 1, 0, 5, 3)))))))) + (((((((-648) * mn(p, 2, 3, 1, 1, 0, 5, 1) + (27) * mn(p, 2, 3, 1, 0, 4, 2, 0)) + ((-108) * mn(p, 2, 3, 1, 0, 2, 4, 1) + (81) * mn(p, 2, 3, 1, 0, 0, 6, 2))) + (((486) * mn(p, 2, 2, 2, 4, 1, 1, 0) + (180) * mn(p, 2, 2, 2, 3, 3, 0, 0)) + ((-1836) * mn(p, 2, 2, 2, 3, 1, 2, 1) + ((-504) * mn(p, 2, 2, 2, 2, 3, 1, 1) + (1836) * mn(p, 2, 2, 2, 2, 1, 3, 2))))) + ((((1944) * mn(p, 2, 2, 2, 2, 1, 3, 0) + (-3) * mn(p, 2, 2, 2, 1, 5, 0, 1)) + ((270) * mn(p, 2, 2, 2, 1, 3, 2, 2) + ((432) * mn(p, 2, 2, 2, 1, 3, 2, 0) + (-459) * mn(p, 2, 2, 2, 1, 1, 4, 3)))) + (((-2592) * mn(p, 2, 2, 2, 1, 1, 4, 1) + (9) * mn(p, 2, 2, 2, 0, 5, 1, 0)) + ((-270) * mn(p, 2, 2, 2, 0, 3, 3, 1) + ((405) * mn(p, 2, 2, 2, 0, 1, 5, 2) + (486) * mn(p, 2, 2, 2, 0, 1, 5, 0)))))) + (((((108) * mn(p, 2, 1, 3, 4, 2, 0, 0) + (-756) * mn(p, 2, 1, 3, 3, 2, 1, 1)) + ((-36) * mn(p, 2, 1, 3, 2, 4, 0, 1) + (1080) * mn(p, 2, 1, 3, 2, 2, 2, 2))) + (((1296) * mn(p, 2, 1, 3, 2, 2, 2, 0) + (36) * mn(p, 2, 1, 3, 1, 4, 1, 2)) + ((108) * mn(p, 2, 1, 3, 1, 4, 1, 0) + ((-324) * mn(p, 2, 1, 3, 1, 2, 3, 3) + (-2592) * mn(p, 2, 1, 3, 1, 2, 3, 1))))) + ((((-108) * mn(p, 2, 1, 3, 0, 4, 2, 1) + (648) * mn(p, 2, 1, 3, 0, 2, 4, 2)) + ((972) * mn(p, 2, 1, 3, 0, 2, 4, 0) + ((-108) * mn(p, 2, 0, 4, 3, 3, 0, 1) + (270) * mn(p, 2, 0, 4, 2, 3, 1, 2)))) + (((324) * mn(p, 2, 0, 4, 2, 3, 1, 0) + (-108) * mn(p, 2, 0, 4, 1, 3, 2, 3)) + ((-972) * mn(p, 2, 0, 4, 1, 3, 2, 1) + ((324) * mn(p, 2, 0, 4, 0, 3, 3, 2) + (486) * mn(p, 2, 0, 4, 0, 3, 3, 0))))))) + ((((((12) * mn(p, 1, 5, 0, 3, 2, 1, 0) + (2) * mn(p, 1, 5, 0, 2, 4, 0, 0)) + ((-6) * mn(p, 1, 5, 0, 2, 2, 2, 1) + (72) * mn(p, 1, 4, 1, 4, 1, 1, 0))) + (((24) * mn(p, 1, 4, 1, 3, 3, 0, 0) + (-180) * mn(p, 1, 4, 1, 3, 1, 2, 1)) + ((-36) * mn(p, 1, 4, 1, 2, 3, 1, 1) + ((72) * mn(p, 1, 4, 1, 2, 1, 3, 2) + (216) * mn(p, 1, 4, 1, 2, 1, 3, 0))))) + ((((36) * mn(p, 1, 4, 1, 1, 3, 2, 0) + (-54) * mn(p, 1, 4, 1, 1, 1, 4, 1)) + ((108) * mn(p, 1, 3, 2, 5, 0, 1, 0) + ((54) * mn(p, 1, 3, 2, 4, 2, 0, 0) + (-486) * mn(p, 1, 3, 2, 4, 0, 2, 1)))) + (((-216) * mn(p, 1, 3, 2, 3, 2, 1, 1) + (648) * mn(p, 1, 3, 2, 3, 0, 3, 2)) + ((648) * mn(p, 1, 3, 2, 3, 0, 3, 0) + ((-6) * mn(p, 1, 3, 2, 2, 4, 0, 1) + (162) * mn(p, 1, 3, 2, 2, 2, 2, 2)))))) + (((((324) * mn(p, 1, 3, 2, 2, 2, 2, 0) + (-216) * mn(p, 1, 3, 2, 2, 0, 4, 3)) + ((-1458) * mn(p, 1, 3, 2, 2, 0, 4, 1) + ((18) * mn(p, 1, 3, 2, 1, 4, 1, 0) + (-378) * mn(p, 1, 3, 2, 1, 2, 3, 1)))) + (((324) * mn(p, 1, 3, 2, 1, 0, 5, 2) + (972) * mn(p, 1, 3, 2, 1, 0, 5, 0)) + ((162) * mn(p, 1, 3, 2, 0, 2, 4, 0) + ((-108) * mn(p, 1, 2, 3, 4, 1, 1, 1) + (-54) * mn(p, 1, 2, 3, 3, 3, 0, 1))))) + ((((270) * mn(p, 1, 2, 3, 3, 1, 2, 2) + (324) * mn(p, 1, 2, 3, 3, 1, 2, 0)) + ((72) * mn(p, 1, 2, 3, 2, 3, 1, 2) + ((162) * mn(p, 1, 2, 3, 2, 3, 1, 0) + (-108) * mn(p, 1, 2, 3, 2, 1, 3, 3)))) + (((-1134) * mn(p, 1, 2, 3, 2, 1, 3, 1) + (-270) * mn(p, 1, 2, 3, 1, 3, 2, 1)) + ((324) * mn(p, 1, 2, 3, 1, 1, 4, 2) + ((972) * mn(p, 1, 2, 3, 1, 1, 4, 0) + (162) * mn(p, 1, 2, 3, 0, 3, 3, 0))))))))),
{
    let t0 = (9) * mn(p, 4, 0, 0, 0, 2, 2, 0);
    let t1 = (36) * mn(p, 3, 1, 0, 1, 1, 2, 0);
    let t2 = (6) * mn(p, 3, 1, 0, 0, 3, 1, 0);
    let t3 = (-18) * mn(p, 3, 1, 0, 0, 1, 3, 1);
    let t4 = (36) * mn(p, 3, 0, 1, 1, 2, 1, 0);
    let t5 = (-36) * mn(p, 3, 0, 1, 0, 2, 2, 1);
    let t6 = (36) * mn(p, 2, 2, 0, 2, 0, 2, 0);
    let t7 = (18) * mn(p, 2, 2, 0, 1, 2, 1, 0);
    let t8 = (-36) * mn(p, 2, 2, 0, 1, 0, 3, 1);
    let t9 = (1) * mn(p, 2, 2, 0, 0, 4, 0, 0);
    let t10 = (-6) * mn(p, 2, 2, 0, 0, 2, 2, 1);
    let t11 = (9) * mn(p, 2, 2, 0, 0, 0, 4, 2);
    let t12 = (90) * mn(p, 2, 1, 1, 2, 1, 1, 0);
    let t13 = (12) * mn(p, 2, 1, 1, 1, 3, 0, 0);
    let t14 = (-144) * mn(p, 2, 1, 1, 1, 1, 2, 1);
    let t15 = (-12) * mn(p, 2, 1, 1, 0, 3, 1, 1);
    let t16 = (36) * mn(p, 2, 1, 1, 0, 1, 3, 2);
    let t17 = (54) * mn(p, 2, 1, 1, 0, 1, 3, 0);
    let t18 = (36) * mn(p, 2, 0, 2, 2, 2, 0, 0);
    let t19 = (-90) * mn(p, 2, 0, 2, 1, 2, 1, 1);
    let t20 = (36) * mn(p, 2, 0, 2, 0, 2, 2, 2);
    let t21 = (54) * mn(p, 2, 0, 2, 0, 2, 2, 0);
    let t22 = (12) * mn(p, 1, 3, 0, 2, 1, 1, 0);
    let t23 = (2) * mn(p, 1, 3, 0, 1, 3, 0, 0);
    let t24 = (-6) * mn(p, 1, 3, 0, 1, 1, 2, 1);
    let t25 = (36) * mn(p, 1, 2, 1, 3, 0, 1, 0);
    let t26 = (18) * mn(p, 1, 2, 1, 2, 2, 0, 0);
    let t27 = (-90) * mn(p, 1, 2, 1, 2, 0, 2, 1);
    let t28 = (-24) * mn(p, 1, 2, 1, 1, 2, 1, 1);
    let t29 = (36) * mn(p, 1, 2, 1, 1, 0, 3, 2);
    let t30 = (108) * mn(p, 1, 2, 1, 1, 0, 3, 0);
    let t31 = (18) * mn(p, 1, 2, 1, 0, 2, 2, 0);
    let s0 = (3) * mn(p, 2, 0, 0, 0, 1, 1, 0);
    let s1 = (6) * mn(p, 1, 1, 0, 1, 0, 1, 0);
    let s2 = (1) * mn(p, 1, 1, 0, 0, 2, 0, 0);
    let s3 = (-3) * mn(p, 1, 1, 0, 0, 0, 2, 1);
    let s4 = (6) * mn(p, 1, 0, 1, 1, 1, 0, 0);
    let s5 = (-6) * mn(p, 1, 0, 1, 0, 1, 1, 1);
    let s6 = (1) * mn(p, 0, 2, 0, 1, 1, 0, 0);
    let s7 = (3) * mn(p, 0, 1, 1, 2, 0, 0, 0);
    let s8 = (-6) * mn(p, 0, 1, 1, 1, 0, 1, 1);
    let s9 = (9) * mn(p, 0, 1, 1, 0, 0, 2, 0);
    let s10 = (-3) * mn(p, 0, 0, 2, 1, 1, 0, 1);
    let s11 = (9) * mn(p, 0, 0, 2, 0, 1, 1, 0);
    let pp0 = t0;
    let pp1 = pp0 + t1;
    let pp2 = pp1 + t2;
    let pp3 = pp2 + t3;
    let pp4 = pp3 + t4;
    let pp5 = pp4 + t5;
    let pp6 = pp5 + t6;
    let pp7 = pp6 + t7;
    let pp8 = pp7 + t8;
    let pp9 = pp8 + t9;
    let pp10 = pp9 + t10;
    let pp11 = pp10 + t11;
    let pp12 = pp11 + t12;
    let pp13 = pp12 + t13;
    let pp14 = pp13 + t14;
    let pp15 = pp14 + t15;
    let pp16 = pp15 + t16;
    let pp17 = pp16 + t17;
    let pp18 = pp17 + t18;
    let pp19 = pp18 + t19;
    let pp20 = pp19 + t20;
    let pp21 = pp20 + t21;
    let pp22 = pp21 + t22;
    let pp23 = pp22 + t23;
    let pp24 = pp23 + t24;
    let pp25 = pp24 + t25;
    let pp26 = pp25 + t26;
    let pp27 = pp26 + t27;
    let pp28 = pp27 + t28;
    let pp29 = pp28 + t29;
    let pp30 = pp29 + t30;
    let pp31 = pp30 + t31;
    let qq0 = s0;
    let qq1 = qq0 + s1;
    let qq2 = qq1 + s2;
    let qq3 = qq2 + s3;
    let qq4 = qq3 + s4;
    let qq5 = qq4 + s5;
    let qq6 = qq5 + s6;
    let qq7 = qq6 + s7;
    let qq8 = qq7 + s8;
    let qq9 = qq8 + s9;
    let qq10 = qq9 + s10;
    let qq11 = qq10 + s11;
    let q = qq11;
    lemma_mul_is_distributive_add_other_way(q, pp0, t1);
    lemma_mul_is_distributive_add_other_way(q, pp1, t2);
    lemma_mul_is_distributive_add_other_way(q, pp2, t3);
    lemma_mul_is_distributive_add_other_way(q, pp3, t4);
    lemma_mul_is_distributive_add_other_way(q, pp4, t5);
    lemma_mul_is_distributive_add_other_way(q, pp5, t6);
    lemma_mul_is_distributive_add_other_way(q, pp6, t7);
    lemma_mul_is_distributive_add_other_way(q, pp7, t8);
    lemma_mul_is_distributive_add_other_way(q, pp8, t9);
    lemma_mul_is_distributive_add_other_way(q, pp9, t10);
    lemma_mul_is_distributive_add_other_way(q, pp10, t11);
    lemma_mul_is_distributive_add_other_way(q, pp11, t12);
    lemma_mul_is_distributive_add_other_way(q, pp12, t13);
    lemma_mul_is_distributive_add_other_way(q, pp13, t14);
    lemma_mul_is_distributive_add_other_way(q, pp14, t15);
    lemma_mul_is_distributive_add_other_way(q, pp15, t16);
    lemma_mul_is_distributive_add_other_way(q, pp16, t17);
    lemma_mul_is_distributive_add_other_way(q, pp17, t18);
    lemma_mul_is_distributive_add_other_way(q, pp18, t19);
    lemma_mul_is_distributive_add_other_way(q, pp19, t20);
    lemma_mul_is_distributive_add_other_way(q, pp20, t21);
    lemma_mul_is_distributive_add_other_way(q, pp21, t22);
    lemma_mul_is_distributive_add_other_way(q, pp22, t23);
    lemma_mul_is_distributive_add_other_way(q, pp23, t24);
    lemma_mul_is_distributive_add_other_way(q, pp24, t25);
    lemma_mul_is_distributive_add_other_way(q, pp25, t26);
    lemma_mul_is_distributive_add_other_way(q, pp26, t27);
    lemma_mul_is_distributive_add_other_way(q, pp27, t28);
    lemma_mul_is_distributive_add_other_way(q, pp28, t29);
    lemma_mul_is_distributive_add_other_way(q, pp29, t30);
    lemma_mul_is_distributive_add_other_way(q, pp30, t31);
    lemma_mul_is_distributive_add(t0, qq0, s1);
    lemma_mul_is_distributive_add(t0, qq1, s2);
    lemma_mul_is_distributive_add(t0, qq2, s3);
    lemma_mul_is_distributive_add(t0, qq3, s4);
    lemma_mul_is_distributive_add(t0, qq4, s5);
    lemma_mul_is_distributive_add(t0, qq5, s6);
    lemma_mul_is_distributive_add(t0, qq6, s7);
    lemma_mul_is_distributive_add(t0, qq7, s8);
    lemma_mul_is_distributive_add(t0, qq8, s9);
    lemma_mul_is_distributive_add(t0, qq9, s10);
    lemma_mul_is_distributive_add(t0, qq10, s11);
    lemma_mul_is_distributive_add(t1, qq0, s1);
    lemma_mul_is_distributive_add(t1, qq1, s2);
    lemma_mul_is_distributive_add(t1, qq2, s3);
    lemma_mul_is_distributive_add(t1, qq3, s4);
    lemma_mul_is_distributive_add(t1, qq4, s5);
    lemma_mul_is_distributive_add(t1, qq5, s6);
    lemma_mul_is_distributive_add(t1, qq6, s7);
    lemma_mul_is_distributive_add(t1, qq7, s8);
    lemma_mul_is_distributive_add(t1, qq8, s9);
    lemma_mul_is_distributive_add(t1, qq9, s10);
    lemma_mul_is_distributive_add(t1, qq10, s11);
    lemma_mul_is_distributive_add(t2, qq0, s1);
    lemma_mul_is_distributive_add(t2, qq1, s2);
    lemma_mul_is_distributive_add(t2, qq2, s3);
    lemma_mul_is_distributive_add(t2, qq3, s4);
    lemma_mul_is_distributive_add(t2, qq4, s5);
    lemma_mul_is_distributive_add(t2, qq5, s6);
    lemma_mul_is_distributive_add(t2, qq6, s7);
    lemma_mul_is_distributive_add(t2, qq7, s8);
    lemma_mul_is_distributive_add(t2, qq8, s9);
    lemma_mul_is_distributive_add(t2, qq9, s10);
    lemma_mul_is_distributive_add(t2, qq10, s11);
    lemma_mul_is_distributive_add(t3, qq0, s1);
    lemma_mul_is_distributive_add(t3, qq1, s2);
    lemma_mul_is_distributive_add(t3, qq2, s3);
    lemma_mul_is_distributive_add(t3, qq3, s4);
    lemma_mul_is_distributive_add(t3, qq4, s5);
    lemma_mul_is_distributive_add(t3, qq5, s6);
    lemma_mul_is_distributive_add(t3, qq6, s7);
    lemma_mul_is_distributive_add(t3, qq7, s8);
    lemma_mul_is_distributive_add(t3, qq8, s9);
    lemma_mul_is_distributive_add(t3, qq9, s10);
    lemma_mul_is_distributive_add(t3, qq10, s11);
    lemma_mul_is_distributive_add(t4, qq0, s1);
    lemma_mul_is_distributive_add(t4, qq1, s2);
    lemma_mul_is_distributive_add(t4, qq2, s3);
    lemma_mul_is_distributive_add(t4, qq3, s4);
    lemma_mul_is_distributive_add(t4, qq4, s5);
    lemma_mul_is_distributive_add(t4, qq5, s6);
    lemma_mul_is_distributive_add(t4, qq6, s7);
    lemma_mul_is_distributive_add(t4, qq7, s8);
    lemma_mul_is_distributive_add(t4, qq8, s9);
    lemma_mul_is_distributive_add(t4, qq9, s10);
    lemma_mul_is_distributive_add(t4, qq10, s11);
    lemma_mul_is_distributive_add(t5, qq0, s1);
    lemma_mul_is_distributive_add(t5, qq1, s2);
    lemma_mul_is_distributive_add(t5, qq2, s3);
    lemma_mul_is_distributive_add(t5, qq3, s4);
    lemma_mul_is_distributive_add(t5, qq4, s5);
    lemma_mul_is_distributive_add(t5, qq5, s6);
    lemma_mul_is_distributive_add(t5, qq6, s7);
    lemma_mul_is_distributive_add(t5, qq7, s8);
    lemma_mul_is_distributive_add(t5, qq8, s9);
    lemma_mul_is_distributive_add(t5, qq9, s10);
    lemma_mul_is_distributive_add(t5, qq10, s11);
    lemma_mul_is_distributive_add(t6, qq0, s1);
    lemma_mul_is_distributive_add(t6, qq1, s2);
    lemma_mul_is_distributive_add(t6, qq2, s3);
    lemma_mul_is_distributive_add(t6, qq3, s4);
    lemma_mul_is_distributive_add(t6, qq4, s5);
    lemma_mul_is_distributive_add(t6, qq5, s6);
    lemma_mul_is_distributive_add(t6, qq6, s7);
    lemma_mul_is_distributive_add(t6, qq7, s8);
    lemma_mul_is_distributive_add(t6, qq8, s9);
    lemma_mul_is_distributive_add(t6, qq9, s10);
    lemma_mul_is_distributive_add(t6, qq10, s11);
    lemma_mul_is_distributive_add(t7, qq0, s1);
    lemma_mul_is_distributive_add(t7, qq1, s2);
    lemma_mul_is_distributive_add(t7, qq2, s3);
    lemma_mul_is_distributive_add(t7, qq3, s4);
    lemma_mul_is_distributive_add(t7, qq4, s5);
    lemma_mul_is_distributive_add(t7, qq5, s6);
    lemma_mul_is_distributive_add(t7, qq6, s7);
    lemma_mul_is_distributive_add(t7, qq7, s8);
    lemma_mul_is_distributive_add(t7, qq8, s9);
    lemma_mul_is_distributive_add(t7, qq9, s10);
    lemma_mul_is_distributive_add(t7, qq10, s11);
    lemma_mul_is_distributive_add(t8, qq0, s1);
    lemma_mul_is_distributive_add(t8, qq1, s2);
    lemma_mul_is_distributive_add(t8, qq2, s3);
    lemma_mul_is_distributive_add(t8, qq3, s4);
    lemma_mul_is_distributive_add(t8, qq4, s5);
    lemma_mul_is_distributive_add(t8, qq5, s6);
    lemma_mul_is_distributive_add(t8, qq6, s7);
    lemma_mul_is_distributive_add(t8, qq7, s8);
    lemma_mul_is_distributive_add(t8, qq8, s9);
    lemma_mul_is_distributive_add(t8, qq9, s10);
    lemma_mul_is_distributive_add(t8, qq10, s11);
    lemma_mul_is_distributive_add(t9, qq0, s1);
    lemma_mul_is_distributive_add(t9, qq1, s2);
    lemma_mul_is_distributive_add(t9, qq2, s3);
    lemma_mul_is_distributive_add(t9, qq3, s4);
    lemma_mul_is_distributive_add(t9, qq4, s5);
    lemma_mul_is_distributive_add(t9, qq5, s6);
    lemma_mul_is_distributive_add(t9, qq6, s7);
    lemma_mul_is_distributive_add(t9, qq7, s8);
    lemma_mul_is_distributive_add(t9, qq8, s9);
    lemma_mul_is_distributive_add(t9, qq9, s10);
    lemma_mul_is_distributive_add(t9, qq10, s11);
    lemma_mul_is_distributive_add(t10, qq0, s1);
    lemma_mul_is_distributive_add(t10, qq1, s2);
    lemma_mul_is_distributive_add(t10, qq2, s3);
    lemma_mul_is_distributive_add(t10, qq3, s4);
    lemma_mul_is_distributive_add(t10, qq4, s5);
    lemma_mul_is_distributive_add(t10, qq5, s6);
    lemma_mul_is_distributive_add(t10, qq6, s7);
    lemma_mul_is_distributive_add(t10, qq7, s8);
    lemma_mul_is_distributive_add(t10, qq8, s9);
    lemma_mul_is_distributive_add(t10, qq9, s10);
    lemma_mul_is_distributive_add(t10, qq10, s11);
    lemma_mul_is_distributive_add(t11, qq0, s1);
    lemma_mul_is_distributive_add(t11, qq1, s2);
    lemma_mul_is_distributive_add(t11, qq2, s3);
    lemma_mul_is_distributive_add(t11, qq3, s4);
    lemma_mul_is_distributive_add(t11, qq4, s5);
    lemma_mul_is_distributive_add(t11, qq5, s6);
    lemma_mul_is_distributive_add(t11, qq6, s7);
    lemma_mul_is_distributive_add(t11, qq7, s8);
    lemma_mul_is_distributive_add(t11, qq8, s9);
    lemma_mul_is_distributive_add(t11, qq9, s10);
    lemma_mul_is_distributive_add(t11, qq10, s11);
    lemma_mul_is_distributive_add(t12, qq0, s1);
    lemma_mul_is_distributive_add(t12, qq1, s2);
    lemma_mul_is_distributive_add(t12, qq2, s3);
    lemma_mul_is_distributive_add(t12, qq3, s4);
    lemma_mul_is_distributive_add(t12, qq4, s5);
    lemma_mul_is_distributive_add(t12, qq5, s6);
    lemma_mul_is_distributive_add(t12, qq6, s7);
    lemma_mul_is_distributive_add(t12, qq7, s8);
    lemma_mul_is_distributive_add(t12, qq8, s9);
    lemma_mul_is_distributive_add(t12, qq9, s10);
    lemma_mul_is_distributive_add(t12, qq10, s11);
    lemma_mul_is_distributive_add(t13, qq0, s1);
    lemma_mul_is_distributive_add(t13, qq1, s2);
    lemma_mul_is_distributive_add(t13, qq2, s3);
    lemma_mul_is_distributive_add(t13, qq3, s4);
    lemma_mul_is_distributive_add(t13, qq4, s5);
    lemma_mul_is_distributive_add(t13, qq5, s6);
    lemma_mul_is_distributive_add(t13, qq6, s7);
    lemma_mul_is_distributive_add(t13, qq7, s8);
    lemma_mul_is_distributive_add(t13, qq8, s9);
    lemma_mul_is_distributive_add(t13, qq9, s10);
    lemma_mul_is_distributive_add(t13, qq10, s11);
    lemma_mul_is_distributive_add(t14, qq0, s1);
    lemma_mul_is_distributive_add(t14, qq1, s2);
    lemma_mul_is_distributive_add(t14, qq2, s3);
    lemma_mul_is_distributive_add(t14, qq3, s4);
    lemma_mul_is_distributive_add(t14, qq4, s5);
    lemma_mul_is_distributive_add(t14, qq5, s6);
    lemma_mul_is_distributive_add(t14, qq6, s7);
    lemma_mul_is_distributive_add(t14, qq7, s8);
    lemma_mul_is_distributive_add(t14, qq8, s9);
    lemma_mul_is_distributive_add(t14, qq9, s10);
    lemma_mul_is_distributive_add(t14, qq10, s11);
    lemma_mul_is_distributive_add(t15, qq0, s1);
    lemma_mul_is_distributive_add(t15, qq1, s2);
    lemma_mul_is_distributive_add(t15, qq2, s3);
    lemma_mul_is_distributive_add(t15, qq3, s4);
    lemma_mul_is_distributive_add(t15, qq4, s5);
    lemma_mul_is_distributive_add(t15, qq5, s6);
    lemma_mul_is_distributive_add(t15, qq6, s7);
    lemma_mul_is_distributive_add(t15, qq7, s8);
    lemma_mul_is_distributive_add(t15, qq8, s9);
    lemma_mul_is_distributive_add(t15, qq9, s10);
    lemma_mul_is_distributive_add(t15, qq10, s11);
    lemma_mul_is_distributive_add(t16, qq0, s1);
    lemma_mul_is_distributive_add(t16, qq1, s2);
    lemma_mul_is_distributive_add(t16, qq2, s3);
    lemma_mul_is_distributive_add(t16, qq3, s4);
    lemma_mul_is_distributive_add(t16, qq4, s5);
    lemma_mul_is_distributive_add(t16, qq5, s6);
    lemma_mul_is_distributive_add(t16, qq6, s7);
    lemma_mul_is_distributive_add(t16, qq7, s8);
    lemma_mul_is_distributive_add(t16, qq8, s9);
    lemma_mul_is_distributive_add(t16, qq9, s10);
    lemma_mul_is_distributive_add(t16, qq10, s11);
    lemma_mul_is_distributive_add(t17, qq0, s1);
    lemma_mul_is_distributive_add(t17, qq1, s2);
    lemma_mul_is_distributive_add(t17, qq2, s3);
    lemma_mul_is_distributive_add(t17, qq3, s4);
    lemma_mul_is_distributive_add(t17, qq4, s5);
    lemma_mul_is_distributive_add(t17, qq5, s6);
    lemma_mul_is_distributive_add(t17, qq6, s7);
    lemma_mul_is_distributive_add(t17, qq7, s8);
    lemma_mul_is_distributive_add(t17, qq8, s9);
    lemma_mul_is_distributive_add(t17, qq9, s10);
    lemma_mul_is_distributive_add(t17, qq10, s11);
    lemma_mul_is_distributive_add(t18, qq0, s1);
    lemma_mul_is_distributive_add(t18, qq1, s2);
    lemma_mul_is_distributive_add(t18, qq2, s3);
    lemma_mul_is_distributive_add(t18, qq3, s4);
    lemma_mul_is_distributive_add(t18, qq4, s5);
    lemma_mul_is_distributive_add(t18, qq5, s6);
    lemma_mul_is_distributive_add(t18, qq6, s7);
    lemma_mul_is_distributive_add(t18, qq7, s8);
    lemma_mul_is_distributive_add(t18, qq8, s9);
    lemma_mul_is_distributive_add(t18, qq9, s10);
    lemma_mul_is_distributive_add(t18, qq10, s11);
    lemma_mul_is_distributive_add(t19, qq0, s1);
    lemma_mul_is_distributive_add(t19, qq1, s2);
    lemma_mul_is_distributive_add(t19, qq2, s3);
    lemma_mul_is_distributive_add(t19, qq3, s4);
    lemma_mul_is_distributive_add(t19, qq4, s5);
    lemma_mul_is_distributive_add(t19, qq5, s6);
    lemma_mul_is_distributive_add(t19, qq6, s7);
    lemma_mul_is_distributive_add(t19, qq7, s8);
    lemma_mul_is_distributive_add(t19, qq8, s9);
    lemma_mul_is_distributive_add(t19, qq9, s10);
    lemma_mul_is_distributive_add(t19, qq10, s11);
    lemma_mul_is_distributive_add(t20, qq0, s1);
    lemma_mul_is_distributive_add(t20, qq1, s2);
    lemma_mul_is_distributive_add(t20, qq2, s3);
    lemma_mul_is_distributive_add(t20, qq3, s4);
    lemma_mul_is_distributive_add(t20, qq4, s5);
    lemma_mul_is_distributive_add(t20, qq5, s6);
    lemma_mul_is_distributive_add(t20, qq6, s7);
    lemma_mul_is_distributive_add(t20, qq7, s8);
    lemma_mul_is_distributive_add(t20, qq8, s9);
    lemma_mul_is_distributive_add(t20, qq9, s10);
    lemma_mul_is_distributive_add(t20, qq10, s11);
    lemma_mul_is_distributive_add(t21, qq0, s1);
    lemma_mul_is_distributive_add(t21, qq1, s2);
    lemma_mul_is_distributive_add(t21, qq2, s3);
    lemma_mul_is_distributive_add(t21, qq3, s4);
    lemma_mul_is_distributive_add(t21, qq4, s5);
    lemma_mul_is_distributive_add(t21, qq5, s6);
    lemma_mul_is_distributive_add(t21, qq6, s7);
    lemma_mul_is_distributive_add(t21, qq7, s8);
    lemma_mul_is_distributive_add(t21, qq8, s9);
    lemma_mul_is_distributive_add(t21, qq9, s10);
    lemma_mul_is_distributive_add(t21, qq10, s11);
    lemma_mul_is_distributive_add(t22, qq0, s1);
    lemma_mul_is_distributive_add(t22, qq1, s2);
    lemma_mul_is_distributive_add(t22, qq2, s3);
    lemma_mul_is_distributive_add(t22, qq3, s4);
    lemma_mul_is_distributive_add(t22, qq4, s5);
    lemma_mul_is_distributive_add(t22, qq5, s6);
    lemma_mul_is_distributive_add(t22, qq6, s7);
    lemma_mul_is_distributive_add(t22, qq7, s8);
    lemma_mul_is_distributive_add(t22, qq8, s9);
    lemma_mul_is_distributive_add(t22, qq9, s10);
    lemma_mul_is_distributive_add(t22, qq10, s11);
    lemma_mul_is_distributive_add(t23, qq0, s1);
    lemma_mul_is_distributive_add(t23, qq1, s2);
    lemma_mul_is_distributive_add(t23, qq2, s3);
    lemma_mul_is_distributive_add(t23, qq3, s4);
    lemma_mul_is_distributive_add(t23, qq4, s5);
    lemma_mul_is_distributive_add(t23, qq5, s6);
    lemma_mul_is_distributive_add(t23, qq6, s7);
    lemma_mul_is_distributive_add(t23, qq7, s8);
    lemma_mul_is_distributive_add(t23, qq8, s9);
    lemma_mul_is_distributive_add(t23, qq9, s10);
    lemma_mul_is_distributive_add(t23, qq10, s11);
    lemma_mul_is_distributive_add(t24, qq0, s1);
    lemma_mul_is_distributive_add(t24, qq1, s2);
    lemma_mul_is_distributive_add(t24, qq2, s3);
    lemma_mul_is_distributive_add(t24, qq3, s4);
    lemma_mul_is_distributive_add(t24, qq4, s5);
    lemma_mul_is_distributive_add(t24, qq5, s6);
    lemma_mul_is_distributive_add(t24, qq6, s7);
    lemma_mul_is_distributive_add(t24, qq7, s8);
    lemma_mul_is_distributive_add(t24, qq8, s9);
    lemma_mul_is_distributive_add(t24, qq9, s10);
    lemma_mul_is_distributive_add(t24, qq10, s11);
    lemma_mul_is_distributive_add(t25, qq0, s1);
    lemma_mul_is_distributive_add(t25, qq1, s2);
    lemma_mul_is_distributive_add(t25, qq2, s3);
    lemma_mul_is_distributive_add(t25, qq3, s4);
    lemma_mul_is_distributive_add(t25, qq4, s5);
    lemma_mul_is_distributive_add(t25, qq5, s6);
    lemma_mul_is_distributive_add(t25, qq6, s7);
    lemma_mul_is_distributive_add(t25, qq7, s8);
    lemma_mul_is_distributive_add(t25, qq8, s9);
    lemma_mul_is_distributive_add(t25, qq9, s10);
    lemma_mul_is_distributive_add(t25, qq10, s11);
    lemma_mul_is_distributive_add(t26, qq0, s1);
    lemma_mul_is_distributive_add(t26, qq1, s2);
    lemma_mul_is_distributive_add(t26, qq2, s3);
    lemma_mul_is_distributive_add(t26, qq3, s4);
    lemma_mul_is_distributive_add(t26, qq4, s5);
    lemma_mul_is_distributive_add(t26, qq5, s6);
    lemma_mul_is_distributive_add(t26, qq6, s7);
    lemma_mul_is_distributive_add(t26, qq7, s8);
    lemma_mul_is_distributive_add(t26, qq8, s9);
    lemma_mul_is_distributive_add(t26, qq9, s10);
    lemma_mul_is_distributive_add(t26, qq10, s11);
    lemma_mul_is_distributive_add(t27, qq0, s1);
    lemma_mul_is_distributive_add(t27, qq1, s2);
    lemma_mul_is_distributive_add(t27, qq2, s3);
    lemma_mul_is_distributive_add(t27, qq3, s4);
    lemma_mul_is_distributive_add(t27, qq4, s5);
    lemma_mul_is_distributive_add(t27, qq5, s6);
    lemma_mul_is_distributive_add(t27, qq6, s7);
    lemma_mul_is_distributive_add(t27, qq7, s8);
    lemma_mul_is_distributive_add(t27, qq8, s9);
    lemma_mul_is_distributive_add(t27, qq9, s10);
    lemma_mul_is_distributive_add(t27, qq10, s11);
    lemma_mul_is_distributive_add(t28, qq0, s1);
    lemma_mul_is_distributive_add(t28, qq1, s2);
    lemma_mul_is_distributive_add(t28, qq2, s3);
    lemma_mul_is_distributive_add(t28, qq3, s4);
    lemma_mul_is_distributive_add(t28, qq4, s5);
    lemma_mul_is_distributive_add(t28, qq5, s6);
    lemma_mul_is_distributive_add(t28, qq6, s7);
    lemma_mul_is_distributive_add(t28, qq7, s8);
    lemma_mul_is_distributive_add(t28, qq8, s9);
    lemma_mul_is_distributive_add(t28, qq9, s10);
    lemma_mul_is_distributive_add(t28, qq10, s11);
    lemma_mul_is_distributive_add(t29, qq0, s1);
    lemma_mul_is_distributive_add(t29, qq1, s2);
    lemma_mul_is_distributive_add(t29, qq2, s3);
    lemma_mul_is_distributive_add(t29, qq3, s4);
    lemma_mul_is_distributive_add(t29, qq4, s5);
    lemma_mul_is_distributive_add(t29, qq5, s6);
    lemma_mul_is_distributive_add(t29, qq6, s7);
    lemma_mul_is_distributive_add(t29, qq7, s8);
    lemma_mul_is_distributive_add(t29, qq8, s9);
    lemma_mul_is_distributive_add(t29, qq9, s10);
    lemma_mul_is_distributive_add(t29, qq10, s11);
    lemma_mul_is_distributive_add(t30, qq0, s1);
    lemma_mul_is_distributive_add(t30, qq1, s2);
    lemma_mul_is_distributive_add(t30, qq2, s3);
    lemma_mul_is_distributive_add(t30, qq3, s4);
    lemma_mul_is_distributive_add(t30, qq4, s5);
    lemma_mul_is_distributive_add(t30, qq5, s6);
    lemma_mul_is_distributive_add(t30, qq6, s7);
    lemma_mul_is_distributive_add(t30, qq7, s8);
    lemma_mul_is_distributive_add(t30, qq8, s9);
    lemma_mul_is_distributive_add(t30, qq9, s10);
    lemma_mul_is_distributive_add(t30, qq10, s11);
    lemma_mul_is_distributive_add(t31, qq0, s1);
    lemma_mul_is_distributive_add(t31, qq1, s2);
    lemma_mul_is_distributive_add(t31, qq2, s3);
    lemma_mul_is_distributive_add(t31, qq3, s4);
    lemma_mul_is_distributive_add(t31, qq4, s5);
    lemma_mul_is_distributive_add(t31, qq5, s6);
    lemma_mul_is_distributive_add(t31, qq6, s7);
    lemma_mul_is_distributive_add(t31, qq7, s8);
    lemma_mul_is_distributive_add(t31, qq8, s9);
    lemma_mul_is_distributive_add(t31, qq9, s10);
    lemma_mul_is_distributive_add(t31, qq10, s11);
    lemma_tm(p, 9, 4, 0, 0, 0, 2, 2, 0, 3, 2, 0, 0, 0, 1, 1, 0);
    assert(t0 * s0 == (27) * mn(p, 6, 0, 0, 0, 3, 3, 0));
    lemma_tm(p, 9, 4, 0, 0, 0, 2, 2, 0, 6, 1, 1, 0, 1, 0, 1, 0);
    assert(t0 * s1 == (54) * mn(p, 5, 1, 0, 1, 2, 3, 0));
    lemma_tm(p, 9, 4, 0, 0, 0, 2, 2, 0, 1, 1, 1, 0, 0, 2, 0, 0);
    assert(t0 * s2 == (9) * mn(p, 5, 1, 0, 0, 4, 2, 0));
    lemma_tm(p, 9, 4, 0, 0, 0, 2, 2, 0, -3, 1, 1, 0, 0, 0, 2, 1);
    assert(t0 * s3 == (-27) * mn(p, 5, 1, 0, 0, 2, 4, 1));
    lemma_tm(p, 9, 4, 0, 0, 0, 2, 2, 0, 6, 1, 0, 1, 1, 1, 0, 0);
    assert(t0 * s4 == (54) * mn(p, 5, 0, 1, 1, 3, 2, 0));
    lemma_tm(p, 9, 4, 0, 0, 0, 2, 2, 0, -6, 1, 0, 1, 0, 1, 1, 1);
    assert(t0 * s5 == (-54) * mn(p, 5, 0, 1, 0, 3, 3, 1));
    lemma_tm(p, 9, 4, 0, 0, 0, 2, 2, 0, 1, 0, 2, 0, 1, 1, 0, 0);
    assert(t0 * s6 == (9) * mn(p, 4, 2, 0, 1, 3, 2, 0));
    lemma_tm(p, 9, 4, 0, 0, 0, 2, 2, 0, 3, 0, 1, 1, 2, 0, 0, 0);
    assert(t0 * s7 == (27) * mn(p, 4, 1, 1, 2, 2, 2, 0));
    lemma_tm(p, 9, 4, 0, 0, 0, 2, 2, 0, -6, 0, 1, 1, 1, 0, 1, 1);
    assert(t0 * s8 == (-54) * mn(p, 4, 1, 1, 1, 2, 3, 1));
    lemma_tm(p, 9, 4, 0, 0, 0, 2, 2, 0, 9, 0, 1, 1, 0, 0, 2, 0);
    assert(t0 * s9 == (81) * mn(p, 4, 1, 1, 0, 2, 4, 0));
    lemma_tm(p, 9, 4, 0, 0, 0, 2, 2, 0, -3, 0, 0, 2, 1, 1, 0, 1);
    assert(t0 * s10 == (-27) * mn(p, 4, 0, 2, 1, 3, 2, 1));
    lemma_tm(p, 9, 4, 0, 0, 0, 2, 2, 0, 9, 0, 0, 2, 0, 1, 1, 0);
    assert(t0 * s11 == (81) * mn(p, 4, 0, 2, 0, 3, 3, 0));
    assert(t0 * q == (27) * mn(p, 6, 0, 0, 0, 3, 3, 0) + (54) * mn(p, 5, 1, 0, 1, 2, 3, 0) + (9) * mn(p, 5, 1, 0, 0, 4, 2, 0) + (-27) * mn(p, 5, 1, 0, 0, 2, 4, 1) + (54) * mn(p, 5, 0, 1, 1, 3, 2, 0) + (-54) * mn(p, 5, 0, 1, 0, 3, 3, 1) + (9) * mn(p, 4, 2, 0, 1, 3, 2, 0) + (27) * mn(p, 4, 1, 1, 2, 2, 2, 0) + (-54) * mn(p, 4, 1, 1, 1, 2, 3, 1) + (81) * mn(p, 4, 1, 1, 0, 2, 4, 0) + (-27) * mn(p, 4, 0, 2, 1, 3, 2, 1) + (81) * mn(p, 4, 0, 2, 0, 3, 3, 0));
    lemma_tm(p, 36, 3, 1, 0, 1, 1, 2, 0, 3, 2, 0, 0, 0, 1, 1, 0);
    assert(t1 * s0 == (108) * mn(p, 5, 1, 0, 1, 2, 3, 0));
    lemma_tm(p, 36, 3, 1, 0, 1, 1, 2, 0, 6, 1, 1, 0, 1, 0, 1, 0);
    assert(t1 * s1 == (216) * mn(p, 4, 2, 0, 2, 1, 3, 0));
    lemma_tm(p, 36, 3, 1, 0, 1, 1, 2, 0, 1, 1, 1, 0, 0, 2, 0, 0);
    assert(t1 * s2 == (36) * mn(p, 4, 2, 0, 1, 3, 2, 0));
    lemma_tm(p, 36, 3, 1, 0, 1, 1, 2, 0, -3, 1, 1, 0, 0, 0, 2, 1);
    assert(t1 * s3 == (-108) * mn(p, 4, 2, 0, 1, 1, 4, 1));
    lemma_tm(p, 36, 3, 1, 0, 1, 1, 2, 0, 6, 1, 0, 1, 1, 1, 0, 0);
    assert(t1 * s4 == (216) * mn(p, 4, 1, 1, 2, 2, 2, 0));
    lemma_tm(p, 36, 3, 1, 0, 1, 1, 2, 0, -6, 1, 0, 1, 0, 1, 1, 1);
    assert(t1 * s5 == (-216) * mn(p, 4, 1, 1, 1, 2, 3, 1));
    lemma_tm(p, 36, 3, 1, 0, 1, 1, 2, 0, 1, 0, 2, 0, 1, 1, 0, 0);
    assert(t1 * s6 == (36) * mn(p, 3, 3, 0, 2, 2, 2, 0));
    lemma_tm(p, 36, 3, 1, 0, 1, 1, 2, 0, 3, 0, 1, 1, 2, 0, 0, 0);
    assert(t1 * s7 == (108) * mn(p, 3, 2, 1, 3, 1, 2, 0));
    lemma_tm(p, 36, 3, 1, 0, 1, 1, 2, 0, -6, 0, 1, 1, 1, 0, 1, 1);
    assert(t1 * s8 == (-216) * mn(p, 3, 2, 1, 2, 1, 3, 1));
    lemma_tm(p, 36, 3, 1, 0, 1, 1, 2, 0, 9, 0, 1, 1, 0, 0, 2, 0);
    assert(t1 * s9 == (324) * mn(p, 3, 2, 1, 1, 1, 4, 0));
    lemma_tm(p, 36, 3, 1, 0, 1, 1, 2, 0, -3, 0, 0, 2, 1, 1, 0, 1);
    assert(t1 * s10 == (-108) * mn(p, 3, 1, 2, 2, 2, 2, 1));
    lemma_tm(p, 36, 3, 1, 0, 1, 1, 2, 0, 9, 0, 0, 2, 0, 1, 1, 0);
    assert(t1 * s11 == (324) * mn(p, 3, 1, 2, 1, 2, 3, 0));
    assert(t1 * q == (108) * mn(p, 5, 1, 0, 1, 2, 3, 0) + (216) * mn(p, 4, 2, 0, 2, 1, 3, 0) + (36) * mn(p, 4, 2, 0, 1, 3, 2, 0) + (-108) * mn(p, 4, 2, 0, 1, 1, 4, 1) + (216) * mn(p, 4, 1, 1, 2, 2, 2, 0) + (-216) * mn(p, 4, 1, 1, 1, 2, 3, 1) + (36) * mn(p, 3, 3, 0, 2, 2, 2, 0) + (108) * mn(p, 3, 2, 1, 3, 1, 2, 0) + (-216) * mn(p, 3, 2, 1, 2, 1, 3, 1) + (324) * mn(p, 3, 2, 1, 1, 1, 4, 0) + (-108) * mn(p, 3, 1, 2, 2, 2, 2, 1) + (324) * mn(p, 3, 1, 2, 1, 2, 3, 0));
    lemma_tm(p, 6, 3, 1, 0, 0, 3, 1, 0, 3, 2, 0, 0, 0, 1, 1, 0);
    assert(t2 * s0 == (18) * mn(p, 5, 1, 0, 0, 4, 2, 0));
    lemma_tm(p, 6, 3, 1, 0, 0, 3, 1, 0, 6, 1, 1, 0, 1, 0, 1, 0);
    assert(t2 * s1 == (36) * mn(p, 4, 2, 0, 1, 3, 2, 0));
    lemma_tm(p, 6, 3, 1, 0, 0, 3, 1, 0, 1, 1, 1, 0, 0, 2, 0, 0);
    assert(t2 * s2 == (6) * mn(p, 4, 2, 0, 0, 5, 1, 0));
    lemma_tm(p, 6, 3, 1, 0, 0, 3, 1, 0, -3, 1, 1, 0, 0, 0, 2, 1);
    assert(t2 * s3 == (-18) * mn(p, 4, 2, 0, 0, 3, 3, 1));
    lemma_tm(p, 6, 3, 1, 0, 0, 3, 1, 0, 6, 1, 0, 1, 1, 1, 0, 0);
    assert(t2 * s4 == (36) * mn(p, 4, 1, 1, 1, 4, 1, 0));
    lemma_tm(p, 6, 3, 1, 0, 0, 3, 1, 0, -6, 1, 0, 1, 0, 1, 1, 1);
    assert(t2 * s5 == (-36) * mn(p, 4, 1, 1, 0, 4, 2, 1));
    lemma_tm(p, 6, 3, 1, 0, 0, 3, 1, 0, 1, 0, 2, 0, 1, 1, 0, 0);
    assert(t2 * s6 == (6) * mn(p, 3, 3, 0, 1, 4, 1, 0));
    lemma_tm(p, 6, 3, 1, 0, 0, 3, 1, 0, 3, 0, 1, 1, 2, 0, 0, 0);
    assert(t2 * s7 == (18) * mn(p, 3, 2, 1, 2, 3, 1, 0));
    lemma_tm(p, 6, 3, 1, 0, 0, 3, 1, 0, -6, 0, 1, 1, 1, 0, 1, 1);
    assert(t2 * s8 == (-36) * mn(p, 3, 2, 1, 1, 3, 2, 1));
    lemma_tm(p, 6, 3, 1, 0, 0, 3, 1, 0, 9, 0, 1, 1, 0, 0, 2, 0);
    assert(t2 * s9 == (54) * mn(p, 3, 2, 1, 0, 3, 3, 0));
    lemma_tm(p, 6, 3, 1, 0, 0, 3, 1, 0, -3, 0, 0, 2, 1, 1, 0, 1);
    assert(t2 * s10 == (-18) * mn(p, 3, 1, 2, 1, 4, 1, 1));
    lemma_tm(p, 6, 3, 1, 0, 0, 3, 1, 0, 9, 0, 0, 2, 0, 1, 1, 0);
    assert(t2 * s11 == (54) * mn(p, 3, 1, 2, 0, 4, 2, 0));
    assert(t2 * q == (18) * mn(p, 5, 1, 0, 0, 4, 2, 0) + (36) * mn(p, 4, 2, 0, 1, 3, 2, 0) + (6) * mn(p, 4, 2, 0, 0, 5, 1, 0) + (-18) * mn(p, 4, 2, 0, 0, 3, 3, 1) + (36) * mn(p, 4, 1, 1, 1, 4, 1, 0) + (-36) * mn(p, 4, 1, 1, 0, 4, 2, 1) + (6) * mn(p, 3, 3, 0, 1, 4, 1, 0) + (18) * mn(p, 3, 2, 1, 2, 3, 1, 0) + (-36) * mn(p, 3, 2, 1, 1, 3, 2, 1) + (54) * mn(p, 3, 2, 1, 0, 3, 3, 0) + (-18) * mn(p, 3, 1, 2, 1, 4, 1, 1) + (54) * mn(p, 3, 1, 2, 0, 4, 2, 0));
    lemma_tm(p, -18, 3, 1, 0, 0, 1, 3, 1, 3, 2, 0, 0, 0, 1, 1, 0);
    assert(t3 * s0 == (-54) * mn(p, 5, 1, 0, 0, 2, 4, 1));
    lemma_tm(p, -18, 3, 1, 0, 0, 1, 3, 1, 6, 1, 1, 0, 1, 0, 1, 0);
    assert(t3 * s1 == (-108) * mn(p, 4, 2, 0, 1, 1, 4, 1));
    lemma_tm(p, -18, 3, 1, 0, 0, 1, 3, 1, 1, 1, 1, 0, 0, 2, 0, 0);
    assert(t3 * s2 == (-18) * mn(p, 4, 2, 0, 0, 3, 3, 1));
    lemma_tm(p, -18, 3, 1, 0, 0, 1, 3, 1, -3, 1, 1, 0, 0, 0, 2, 1);
    assert(t3 * s3 == (54) * mn(p, 4, 2, 0, 0, 1, 5, 2));
    lemma_tm(p, -18, 3, 1, 0, 0, 1, 3, 1, 6, 1, 0, 1, 1, 1, 0, 0);
    assert(t3 * s4 == (-108) * mn(p, 4, 1, 1, 1, 2, 3, 1));
    lemma_tm(p, -18, 3, 1, 0, 0, 1, 3, 1, -6, 1, 0, 1, 0, 1, 1, 1);
    assert(t3 * s5 == (108) * mn(p, 4, 1, 1, 0, 2, 4, 2));
    lemma_tm(p, -18, 3, 1, 0, 0, 1, 3, 1, 1, 0, 2, 0, 1, 1, 0, 0);
    assert(t3 * s6 == (-18) * mn(p, 3, 3, 0, 1, 2, 3, 1));
    lemma_tm(p, -18, 3, 1, 0, 0, 1, 3, 1, 3, 0, 1, 1, 2, 0, 0, 0);
    assert(t3 * s7 == (-54) * mn(p, 3, 2, 1, 2, 1, 3, 1));
    lemma_tm(p, -18, 3, 1, 0, 0, 1, 3, 1, -6, 0, 1, 1, 1, 0, 1, 1);
    assert(t3 * s8 == (108) * mn(p, 3, 2, 1, 1, 1, 4, 2));
    lemma_tm(p, -18, 3, 1, 0, 0, 1, 3, 1, 9, 0, 1, 1, 0, 0, 2, 0);
    assert(t3 * s9 == (-162) * mn(p, 3, 2, 1, 0, 1, 5, 1));
    lemma_tm(p, -18, 3, 1, 0, 0, 1, 3, 1, -3, 0, 0, 2, 1, 1, 0, 1);
    assert(t3 * s10 == (54) * mn(p, 3, 1, 2, 1, 2, 3, 2));
    lemma_tm(p, -18, 3, 1, 0, 0, 1, 3, 1, 9, 0, 0, 2, 0, 1, 1, 0);
    assert(t3 * s11 == (-162) * mn(p, 3, 1, 2, 0, 2, 4, 1));
    assert(t3 * q == (-54) * mn(p, 5, 1, 0, 0, 2, 4, 1) + (-108) * mn(p, 4, 2, 0, 1, 1, 4, 1) + (-18) * mn(p, 4, 2, 0, 0, 3, 3, 1) + (54) * mn(p, 4, 2, 0, 0, 1, 5, 2) + (-108) * mn(p, 4, 1, 1, 1, 2, 3, 1) + (108) * mn(p, 4, 1, 1, 0, 2, 4, 2) + (-18) * mn(p, 3, 3, 0, 1, 2, 3, 1) + (-54) * mn(p, 3, 2, 1, 2, 1, 3, 1) + (108) * mn(p, 3, 2, 1, 1, 1, 4, 2) + (-162) * mn(p, 3, 2, 1, 0, 1, 5, 1) + (54) * mn(p, 3, 1, 2, 1, 2, 3, 2) + (-162) * mn(p, 3, 1, 2, 0, 2, 4, 1));
    lemma_tm(p, 36, 3, 0, 1, 1, 2, 1, 0, 3, 2, 0, 0, 0, 1, 1, 0);
    assert(t4 * s0 == (108) * mn(p, 5, 0, 1, 1, 3, 2, 0));
    lemma_tm(p, 36, 3, 0, 1, 1, 2, 1, 0, 6, 1, 1, 0, 1, 0, 1, 0);
    assert(t4 * s1 == (216) * mn(p, 4, 1, 1, 2, 2, 2, 0));
    lemma_tm(p, 36, 3, 0, 1, 1, 2, 1, 0, 1, 1, 1, 0, 0, 2, 0, 0);
    assert(t4 * s2 == (36) * mn(p, 4, 1, 1, 1, 4, 1, 0));
    lemma_tm(p, 36, 3, 0, 1, 1, 2, 1, 0, -3, 1, 1, 0, 0, 0, 2, 1);
    assert(t4 * s3 == (-108) * mn(p, 4, 1, 1, 1, 2, 3, 1));
    lemma_tm(p, 36, 3, 0, 1, 1, 2, 1, 0, 6, 1, 0, 1, 1, 1, 0, 0);
    assert(t4 * s4 == (216) * mn(p, 4, 0, 2, 2, 3, 1, 0));
    lemma_tm(p, 36, 3, 0, 1, 1, 2, 1, 0, -6, 1, 0, 1, 0, 1, 1, 1);
    assert(t4 * s5 == (-216) * mn(p, 4, 0, 2, 1, 3, 2, 1));
    lemma_tm(p, 36, 3, 0, 1, 1, 2, 1, 0, 1, 0, 2, 0, 1, 1, 0, 0);
    assert(t4 * s6 == (36) * mn(p, 3, 2, 1, 2, 3, 1, 0));
    lemma_tm(p, 36, 3, 0, 1, 1, 2, 1, 0, 3, 0, 1, 1, 2, 0, 0, 0);
    assert(t4 * s7 == (108) * mn(p, 3, 1, 2, 3, 2, 1, 0));
    lemma_tm(p, 36, 3, 0, 1, 1, 2, 1, 0, -6, 0, 1, 1, 1, 0, 1, 1);
    assert(t4 * s8 == (-216) * mn(p, 3, 1, 2, 2, 2, 2, 1));
    lemma_tm(p, 36, 3, 0, 1, 1, 2, 1, 0, 9, 0, 1, 1, 0, 0, 2, 0);
    assert(t4 * s9 == (324) * mn(p, 3, 1, 2, 1, 2, 3, 0));
    lemma_tm(p, 36, 3, 0, 1, 1, 2, 1, 0, -3, 0, 0, 2, 1, 1, 0, 1);
    assert(t4 * s10 == (-108) * mn(p, 3, 0, 3, 2, 3, 1, 1));
    lemma_tm(p, 36, 3, 0, 1, 1, 2, 1, 0, 9, 0, 0, 2, 0, 1, 1, 0);
    assert(t4 * s11 == (324) * mn(p, 3, 0, 3, 1, 3, 2, 0));
    assert(t4 * q == (108) * mn(p, 5, 0, 1, 1, 3, 2, 0) + (216) * mn(p, 4, 1, 1, 2, 2, 2, 0) + (36) * mn(p, 4, 1, 1, 1, 4, 1, 0) + (-108) * mn(p, 4, 1, 1, 1, 2, 3, 1) + (216) * mn(p, 4, 0, 2, 2, 3, 1, 0) + (-216) * mn(p, 4, 0, 2, 1, 3, 2, 1) + (36) * mn(p, 3, 2, 1, 2, 3, 1, 0) + (108) * mn(p, 3, 1, 2, 3, 2, 1, 0) + (-216) * mn(p, 3, 1, 2, 2, 2, 2, 1) + (324) * mn(p, 3, 1, 2, 1, 2, 3, 0) + (-108) * mn(p, 3, 0, 3, 2, 3, 1, 1) + (324) * mn(p, 3, 0, 3, 1, 3, 2, 0));
    lemma_tm(p, -36, 3, 0, 1, 0, 2, 2, 1, 3, 2, 0, 0, 0, 1, 1, 0);
    assert(t5 * s0 == (-108) * mn(p, 5, 0, 1, 0, 3, 3, 1));
    lemma_tm(p, -36, 3, 0, 1, 0, 2, 2, 1, 6, 1, 1, 0, 1, 0, 1, 0);
    assert(t5 * s1 == (-216) * mn(p, 4, 1, 1, 1, 2, 3, 1));
    lemma_tm(p, -36, 3, 0, 1, 0, 2, 2, 1, 1, 1, 1, 0, 0, 2, 0, 0);
    assert(t5 * s2 == (-36) * mn(p, 4, 1, 1, 0, 4, 2, 1));
    lemma_tm(p, -36, 3, 0, 1, 0, 2, 2, 1, -3, 1, 1, 0, 0, 0, 2, 1);
    assert(t5 * s3 == (108) * mn(p, 4, 1, 1, 0, 2, 4, 2));
    lemma_tm(p, -36, 3, 0, 1, 0, 2, 2, 1, 6, 1, 0, 1, 1, 1, 0, 0);
    assert(t5 * s4 == (-216) * mn(p, 4, 0, 2, 1, 3, 2, 1));
    lemma_tm(p, -36, 3, 0, 1, 0, 2, 2, 1, -6, 1, 0, 1, 0, 1, 1, 1);
    assert(t5 * s5 == (216) * mn(p, 4, 0, 2, 0, 3, 3, 2));
    lemma_tm(p, -36, 3, 0, 1, 0, 2, 2, 1, 1, 0, 2, 0, 1, 1, 0, 0);
    assert(t5 * s6 == (-36) * mn(p, 3, 2, 1, 1, 3, 2, 1));
    lemma_tm(p, -36, 3, 0, 1, 0, 2, 2, 1, 3, 0, 1, 1, 2, 0, 0, 0);
    assert(t5 * s7 == (-108) * mn(p, 3, 1, 2, 2, 2, 2, 1));
    lemma_tm(p, -36, 3, 0, 1, 0, 2, 2, 1, -6, 0, 1, 1, 1, 0, 1, 1);
    assert(t5 * s8 == (216) * mn(p, 3, 1, 2, 1, 2, 3, 2));
    lemma_tm(p, -36, 3, 0, 1, 0, 2, 2, 1, 9, 0, 1, 1, 0, 0, 2, 0);
    assert(t5 * s9 == (-324) * mn(p, 3, 1, 2, 0, 2, 4, 1));
    lemma_tm(p, -36, 3, 0, 1, 0, 2, 2, 1, -3, 0, 0, 2, 1, 1, 0, 1);
    assert(t5 * s10 == (108) * mn(p, 3, 0, 3, 1, 3, 2, 2));
    lemma_tm(p, -36, 3, 0, 1, 0, 2, 2, 1, 9, 0, 0, 2, 0, 1, 1, 0);
    assert(t5 * s11 == (-324) * mn(p, 3, 0, 3, 0, 3, 3, 1));
    assert(t5 * q == (-108) * mn(p, 5, 0, 1, 0, 3, 3, 1) + (-216) * mn(p, 4, 1, 1, 1, 2, 3, 1) + (-36) * mn(p, 4, 1, 1, 0, 4, 2, 1) + (108) * mn(p, 4, 1, 1, 0, 2, 4, 2) + (-216) * mn(p, 4, 0, 2, 1, 3, 2, 1) + (216) * mn(p, 4, 0, 2, 0, 3, 3, 2) + (-36) * mn(p, 3, 2, 1, 1, 3, 2, 1) + (-108) * mn(p, 3, 1, 2, 2, 2, 2, 1) + (216) * mn(p, 3, 1, 2, 1, 2, 3, 2) + (-324) * mn(p, 3, 1, 2, 0, 2, 4, 1) + (108) * mn(p, 3, 0, 3, 1, 3, 2, 2) + (-324) * mn(p, 3, 0, 3, 0, 3, 3, 1));
    lemma_tm(p, 36, 2, 2, 0, 2, 0, 2, 0, 3, 2, 0, 0, 0, 1, 1, 0);
    assert(t6 * s0 == (108) * mn(p, 4, 2, 0, 2, 1, 3, 0));
    lemma_tm(p, 36, 2, 2, 0, 2, 0, 2, 0, 6, 1, 1, 0, 1, 0, 1, 0);
    assert(t6 * s1 == (216) * mn(p, 3, 3, 0, 3, 0, 3, 0));
    lemma_tm(p, 36, 2, 2, 0, 2, 0, 2, 0, 1, 1, 1, 0, 0, 2, 0, 0);
    assert(t6 * s2 == (36) * mn(p, 3, 3, 0, 2, 2, 2, 0));
    lemma_tm(p, 36, 2, 2, 0, 2, 0, 2, 0, -3, 1, 1, 0, 0, 0, 2, 1);
    assert(t6 * s3 == (-108) * mn(p, 3, 3, 0, 2, 0, 4, 1));
    lemma_tm(p, 36, 2, 2, 0, 2, 0, 2, 0, 6, 1, 0, 1, 1, 1, 0, 0);
    assert(t6 * s4 == (216) * mn(p, 3, 2, 1, 3, 1, 2, 0));
    lemma_tm(p, 36, 2, 2, 0, 2, 0, 2, 0, -6, 1, 0, 1, 0, 1, 1, 1);
    assert(t6 * s5 == (-216) * mn(p, 3, 2, 1, 2, 1, 3, 1));
    lemma_tm(p, 36, 2, 2, 0, 2, 0, 2, 0, 1, 0, 2, 0, 1, 1, 0, 0);
    assert(t6 * s6 == (36) * mn(p, 2, 4, 0, 3, 1, 2, 0));
    lemma_tm(p, 36, 2, 2, 0, 2, 0, 2, 0, 3, 0, 1, 1, 2, 0, 0, 0);
    assert(t6 * s7 == (108) * mn(p, 2, 3, 1, 4, 0, 2, 0));
    lemma_tm(p, 36, 2, 2, 0, 2, 0, 2, 0, -6, 0, 1, 1, 1, 0, 1, 1);
    assert(t6 * s8 == (-216) * mn(p, 2, 3, 1, 3, 0, 3, 1));
    lemma_tm(p, 36, 2, 2, 0, 2, 0, 2, 0, 9, 0, 1, 1, 0, 0, 2, 0);
    assert(t6 * s9 == (324) * mn(p, 2, 3, 1, 2, 0, 4, 0));
    lemma_tm(p, 36, 2, 2, 0, 2, 0, 2, 0, -3, 0, 0, 2, 1, 1, 0, 1);
    assert(t6 * s10 == (-108) * mn(p, 2, 2, 2, 3, 1, 2, 1));
    lemma_tm(p, 36, 2, 2, 0, 2, 0, 2, 0, 9, 0, 0, 2, 0, 1, 1, 0);
    assert(t6 * s11 == (324) * mn(p, 2, 2, 2, 2, 1, 3, 0));
    assert(t6 * q == (108) * mn(p, 4, 2, 0, 2, 1, 3, 0) + (216) * mn(p, 3, 3, 0, 3, 0, 3, 0) + (36) * mn(p, 3, 3, 0, 2, 2, 2, 0) + (-108) * mn(p, 3, 3, 0, 2, 0, 4, 1) + (216) * mn(p, 3, 2, 1, 3, 1, 2, 0) + (-216) * mn(p, 3, 2, 1, 2, 1, 3, 1) + (36) * mn(p, 2, 4, 0, 3, 1, 2, 0) + (108) * mn(p, 2, 3, 1, 4, 0, 2, 0) + (-216) * mn(p, 2, 3, 1, 3, 0, 3, 1) + (324) * mn(p, 2, 3, 1, 2, 0, 4, 0) + (-108) * mn(p, 2, 2, 2, 3, 1, 2, 1) + (324) * mn(p, 2, 2, 2, 2, 1, 3, 0));
    lemma_tm(p, 18, 2, 2, 0, 1, 2, 1, 0, 3, 2, 0, 0, 0, 1, 1, 0);
    assert(t7 * s0 == (54) * mn(p, 4, 2, 0, 1, 3, 2, 0));
    lemma_tm(p, 18, 2, 2, 0, 1, 2, 1, 0, 6, 1, 1, 0, 1, 0, 1, 0);
    assert(t7 * s1 == (108) * mn(p, 3, 3, 0, 2, 2, 2, 0));
    lemma_tm(p, 18, 2, 2, 0, 1, 2, 1, 0, 1, 1, 1, 0, 0, 2, 0, 0);
    assert(t7 * s2 == (18) * mn(p, 3, 3, 0, 1, 4, 1, 0));
    lemma_tm(p, 18, 2, 2, 0, 1, 2, 1, 0, -3, 1, 1, 0, 0, 0, 2, 1);
    assert(t7 * s3 == (-54) * mn(p, 3, 3, 0, 1, 2, 3, 1));
    lemma_tm(p, 18, 2, 2, 0, 1, 2, 1, 0, 6, 1, 0, 1, 1, 1, 0, 0);
    assert(t7 * s4 == (108) * mn(p, 3, 2, 1, 2, 3, 1, 0));
    lemma_tm(p, 18, 2, 2, 0, 1, 2, 1, 0, -6, 1, 0, 1, 0, 1, 1, 1);
    assert(t7 * s5 == (-108) * mn(p, 3, 2, 1, 1, 3, 2, 1));
    lemma_tm(p, 18, 2, 2, 0, 1, 2, 1, 0, 1, 0, 2, 0, 1, 1, 0, 0);
    assert(t7 * s6 == (18) * mn(p, 2, 4, 0, 2, 3, 1, 0));
    lemma_tm(p, 18, 2, 2, 0, 1, 2, 1, 0, 3, 0, 1, 1, 2, 0, 0, 0);
    assert(t7 * s7 == (54) * mn(p, 2, 3, 1, 3, 2, 1, 0));
    lemma_tm(p, 18, 2, 2, 0, 1, 2, 1, 0, -6, 0, 1, 1, 1, 0, 1, 1);
    assert(t7 * s8 == (-108) * mn(p, 2, 3, 1, 2, 2, 2, 1));
    lemma_tm(p, 18, 2, 2, 0, 1, 2, 1, 0, 9, 0, 1, 1, 0, 0, 2, 0);
    assert(t7 * s9 == (162) * mn(p, 2, 3, 1, 1, 2, 3, 0));
    lemma_tm(p, 18, 2, 2, 0, 1, 2, 1, 0, -3, 0, 0, 2, 1, 1, 0, 1);
    assert(t7 * s10 == (-54) * mn(p, 2, 2, 2, 2, 3, 1, 1));
    lemma_tm(p, 18, 2, 2, 0, 1, 2, 1, 0, 9, 0, 0, 2, 0, 1, 1, 0);
    assert(t7 * s11 == (162) * mn(p, 2, 2, 2, 1, 3, 2, 0));
    assert(t7 * q == (54) * mn(p, 4, 2, 0, 1, 3, 2, 0) + (108) * mn(p, 3, 3, 0, 2, 2, 2, 0) + (18) * mn(p, 3, 3, 0, 1, 4, 1, 0) + (-54) * mn(p, 3, 3, 0, 1, 2, 3, 1) + (108) * mn(p, 3, 2, 1, 2, 3, 1, 0) + (-108) * mn(p, 3, 2, 1, 1, 3, 2, 1) + (18) * mn(p, 2, 4, 0, 2, 3, 1, 0) + (54) * mn(p, 2, 3, 1, 3, 2, 1, 0) + (-108) * mn(p, 2, 3, 1, 2, 2, 2, 1) + (162) * mn(p, 2, 3, 1, 1, 2, 3, 0) + (-54) * mn(p, 2, 2, 2, 2, 3, 1, 1) + (162) * mn(p, 2, 2, 2, 1, 3, 2, 0));
    lemma_tm(p, -36, 2, 2, 0, 1, 0, 3, 1, 3, 2, 0, 0, 0, 1, 1, 0);
    assert(t8 * s0 == (-108) * mn(p, 4, 2, 0, 1, 1, 4, 1));
    lemma_tm(p, -36, 2, 2, 0, 1, 0, 3, 1, 6, 1, 1, 0, 1, 0, 1, 0);
    assert(t8 * s1 == (-216) * mn(p, 3, 3, 0, 2, 0, 4, 1));
    lemma_tm(p, -36, 2, 2, 0, 1, 0, 3, 1, 1, 1, 1, 0, 0, 2, 0, 0);
    assert(t8 * s2 == (-36) * mn(p, 3, 3, 0, 1, 2, 3, 1));
    lemma_tm(p, -36, 2, 2, 0, 1, 0, 3, 1, -3, 1, 1, 0, 0, 0, 2, 1);
    assert(t8 * s3 == (108) * mn(p, 3, 3, 0, 1, 0, 5, 2));
    lemma_tm(p, -36, 2, 2, 0, 1, 0, 3, 1, 6, 1, 0, 1, 1, 1, 0, 0);
    assert(t8 * s4 == (-216) * mn(p, 3, 2, 1, 2, 1, 3, 1));
    lemma_tm(p, -36, 2, 2, 0, 1, 0, 3, 1, -6, 1, 0, 1, 0, 1, 1, 1);
    assert(t8 * s5 == (216) * mn(p, 3, 2, 1, 1, 1, 4, 2));
    lemma_tm(p, -36, 2, 2, 0, 1, 0, 3, 1, 1, 0, 2, 0, 1, 1, 0, 0);
    assert(t8 * s6 == (-36) * mn(p, 2, 4, 0, 2, 1, 3, 1));
    lemma_tm(p, -36, 2, 2, 0, 1, 0, 3, 1, 3, 0, 1, 1, 2, 0, 0, 0);
    assert(t8 * s7 == (-108) * mn(p, 2, 3, 1, 3, 0, 3, 1));
    lemma_tm(p, -36, 2, 2, 0, 1, 0, 3, 1, -6, 0, 1, 1, 1, 0, 1, 1);
    assert(t8 * s8 == (216) * mn(p, 2, 3, 1, 2, 0, 4, 2));
    lemma_tm(p, -36, 2, 2, 0, 1, 0, 3, 1, 9, 0, 1, 1, 0, 0, 2, 0);
    assert(t8 * s9 == (-324) * mn(p, 2, 3, 1, 1, 0, 5, 1));
    lemma_tm(p, -36, 2, 2, 0, 1, 0, 3, 1, -3, 0, 0, 2, 1, 1, 0, 1);
    assert(t8 * s10 == (108) * mn(p, 2, 2, 2, 2, 1, 3, 2));
    lemma_tm(p, -36, 2, 2, 0, 1, 0, 3, 1, 9, 0, 0, 2, 0, 1, 1, 0);
    assert(t8 * s11 == (-324) * mn(p, 2, 2, 2, 1, 1, 4, 1));
    assert(t8 * q == (-108) * mn(p, 4, 2, 0, 1, 1, 4, 1) + (-216) * mn(p, 3, 3, 0, 2, 0, 4, 1) + (-36) * mn(p, 3, 3, 0, 1, 2, 3, 1) + (108) * mn(p, 3, 3, 0, 1, 0, 5, 2) + (-216) * mn(p, 3, 2, 1, 2, 1, 3, 1) + (216) * mn(p, 3, 2, 1, 1, 1, 4, 2) + (-36) * mn(p, 2, 4, 0, 2, 1, 3, 1) + (-108) * mn(p, 2, 3, 1, 3, 0, 3, 1) + (216) * mn(p, 2, 3, 1, 2, 0, 4, 2) + (-324) * mn(p, 2, 3, 1, 1, 0, 5, 1) + (108) * mn(p, 2, 2, 2, 2, 1, 3, 2) + (-324) * mn(p, 2, 2, 2, 1, 1, 4, 1));
    lemma_tm(p, 1, 2, 2, 0, 0, 4, 0, 0, 3, 2, 0, 0, 0, 1, 1, 0);
    assert(t9 * s0 == (3) * mn(p, 4, 2, 0, 0, 5, 1, 0));
    lemma_tm(p, 1, 2, 2, 0, 0, 4, 0, 0, 6, 1, 1, 0, 1, 0, 1, 0);
    assert(t9 * s1 == (6) * mn(p, 3, 3, 0, 1, 4, 1, 0));
    lemma_tm(p, 1, 2, 2, 0, 0, 4, 0, 0, 1, 1, 1, 0, 0, 2, 0, 0);
    assert(t9 * s2 == (1) * mn(p, 3, 3, 0, 0, 6, 0, 0));
    lemma_tm(p, 1, 2, 2, 0, 0, 4, 0, 0, -3, 1, 1, 0, 0, 0, 2, 1);
    assert(t9 * s3 == (-3) * mn(p, 3, 3, 0, 0, 4, 2, 1));
    lemma_tm(p, 1, 2, 2, 0, 0, 4, 0, 0, 6, 1, 0, 1, 1, 1, 0, 0);
    assert(t9 * s4 == (6) * mn(p, 3, 2, 1, 1, 5, 0, 0));
    lemma_tm(p, 1, 2, 2, 0, 0, 4, 0, 0, -6, 1, 0, 1, 0, 1, 1, 1);
    assert(t9 * s5 == (-6) * mn(p, 3, 2, 1, 0, 5, 1, 1));
    lemma_tm(p, 1, 2, 2, 0, 0, 4, 0, 0, 1, 0, 2, 0, 1, 1, 0, 0);
    assert(t9 * s6 == (1) * mn(p, 2, 4, 0, 1, 5, 0, 0));
    lemma_tm(p, 1, 2, 2, 0, 0, 4, 0, 0, 3, 0, 1, 1, 2, 0, 0, 0);
    assert(t9 * s7 == (3) * mn(p, 2, 3, 1, 2, 4, 0, 0));
    lemma_tm(p, 1, 2, 2, 0, 0, 4, 0, 0, -6, 0, 1, 1, 1, 0, 1, 1);
    assert(t9 * s8 == (-6) * mn(p, 2, 3, 1, 1, 4, 1, 1));
    lemma_tm(p, 1, 2, 2, 0, 0, 4, 0, 0, 9, 0, 1, 1, 0, 0, 2, 0);
    assert(t9 * s9 == (9) * mn(p, 2, 3, 1, 0, 4, 2, 0));
    lemma_tm(p, 1, 2, 2, 0, 0, 4, 0, 0, -3, 0, 0, 2, 1, 1, 0, 1);
    assert(t9 * s10 == (-3) * mn(p, 2, 2, 2, 1, 5, 0, 1));
    lemma_tm(p, 1, 2, 2, 0, 0, 4, 0, 0, 9, 0, 0, 2, 0, 1, 1, 0);
    assert(t9 * s11 == (9) * mn(p, 2, 2, 2, 0, 5, 1, 0));
    assert(t9 * q == (3) * mn(p, 4, 2, 0, 0, 5, 1, 0) + (6) * mn(p, 3, 3, 0, 1, 4, 1, 0) + (1) * mn(p, 3, 3, 0, 0, 6, 0, 0) + (-3) * mn(p, 3, 3, 0, 0, 4, 2, 1) + (6) * mn(p, 3, 2, 1, 1, 5, 0, 0) + (-6) * mn(p, 3, 2, 1, 0, 5, 1, 1) + (1) * mn(p, 2, 4, 0, 1, 5, 0, 0) + (3) * mn(p, 2, 3, 1, 2, 4, 0, 0) + (-6) * mn(p, 2, 3, 1, 1, 4, 1, 1) + (9) * mn(p, 2, 3, 1, 0, 4, 2, 0) + (-3) * mn(p, 2, 2, 2, 1, 5, 0, 1) + (9) * mn(p, 2, 2, 2, 0, 5, 1, 0));
    lemma_tm(p, -6, 2, 2, 0, 0, 2, 2, 1, 3, 2, 0, 0, 0, 1, 1, 0);
    assert(t10 * s0 == (-18) * mn(p, 4, 2, 0, 0, 3, 3, 1));
    lemma_tm(p, -6, 2, 2, 0, 0, 2, 2, 1, 6, 1, 1, 0, 1, 0, 1, 0);
    assert(t10 * s1 == (-36) * mn(p, 3, 3, 0, 1, 2, 3, 1));
    lemma_tm(p, -6, 2, 2, 0, 0, 2, 2, 1, 1, 1, 1, 0, 0, 2, 0, 0);
    assert(t10 * s2 == (-6) * mn(p, 3, 3, 0, 0, 4, 2, 1));
    lemma_tm(p, -6, 2, 2, 0, 0, 2, 2, 1, -3, 1, 1, 0, 0, 0, 2, 1);
    assert(t10 * s3 == (18) * mn(p, 3, 3, 0, 0, 2, 4, 2));
    lemma_tm(p, -6, 2, 2, 0, 0, 2, 2, 1, 6, 1, 0, 1, 1, 1, 0, 0);
    assert(t10 * s4 == (-36) * mn(p, 3, 2, 1, 1, 3, 2, 1));
    lemma_tm(p, -6, 2, 2, 0, 0, 2, 2, 1, -6, 1, 0, 1, 0, 1, 1, 1);
    assert(t10 * s5 == (36) * mn(p, 3, 2, 1, 0, 3, 3, 2));
    lemma_tm(p, -6, 2, 2, 0, 0, 2, 2, 1, 1, 0, 2, 0, 1, 1, 0, 0);
    assert(t10 * s6 == (-6) * mn(p, 2, 4, 0, 1, 3, 2, 1));
    lemma_tm(p, -6, 2, 2, 0, 0, 2, 2, 1, 3, 0, 1, 1, 2, 0, 0, 0);
    assert(t10 * s7 == (-18) * mn(p, 2, 3, 1, 2, 2, 2, 1));
    lemma_tm(p, -6, 2, 2, 0, 0, 2, 2, 1, -6, 0, 1, 1, 1, 0, 1, 1);
    assert(t10 * s8 == (36) * mn(p, 2, 3, 1, 1, 2, 3, 2));
    lemma_tm(p, -6, 2, 2, 0, 0, 2, 2, 1, 9, 0, 1, 1, 0, 0, 2, 0);
    assert(t10 * s9 == (-54) * mn(p, 2, 3, 1, 0, 2, 4, 1));
    lemma_tm(p, -6, 2, 2, 0, 0, 2, 2, 1, -3, 0, 0, 2, 1, 1, 0, 1);
    assert(t10 * s10 == (18) * mn(p, 2, 2, 2, 1, 3, 2, 2));
    lemma_tm(p, -6, 2, 2, 0, 0, 2, 2, 1, 9, 0, 0, 2, 0, 1, 1, 0);
    assert(t10 * s11 == (-54) * mn(p, 2, 2, 2, 0, 3, 3, 1));
    assert(t10 * q == (-18) * mn(p, 4, 2, 0, 0, 3, 3, 1) + (-36) * mn(p, 3, 3, 0, 1, 2, 3, 1) + (-6) * mn(p, 3, 3, 0, 0, 4, 2, 1) + (18) * mn(p, 3, 3, 0, 0, 2, 4, 2) + (-36) * mn(p, 3, 2, 1, 1, 3, 2, 1) + (36) * mn(p, 3, 2, 1, 0, 3, 3, 2) + (-6) * mn(p, 2, 4, 0, 1, 3, 2, 1) + (-18) * mn(p, 2, 3, 1, 2, 2, 2, 1) + (36) * mn(p, 2, 3, 1, 1, 2, 3, 2) + (-54) * mn(p, 2, 3, 1, 0, 2, 4, 1) + (18) * mn(p, 2, 2, 2, 1, 3, 2, 2) + (-54) * mn(p, 2, 2, 2, 0, 3, 3, 1));
    lemma_tm(p, 9, 2, 2, 0, 0, 0, 4, 2, 3, 2, 0, 0, 0, 1, 1, 0);
    assert(t11 * s0 == (27) * mn(p, 4, 2, 0, 0, 1, 5, 2));
    lemma_tm(p, 9, 2, 2, 0, 0, 0, 4, 2, 6, 1, 1, 0, 1, 0, 1, 0);
    assert(t11 * s1 == (54) * mn(p, 3, 3, 0, 1, 0, 5, 2));
    lemma_tm(p, 9, 2, 2, 0, 0, 0, 4, 2, 1, 1, 1, 0, 0, 2, 0, 0);
    assert(t11 * s2 == (9) * mn(p, 3, 3, 0, 0, 2, 4, 2));
    lemma_tm(p, 9, 2, 2, 0, 0, 0, 4, 2, -3, 1, 1, 0, 0, 0, 2, 1);
    assert(t11 * s3 == (-27) * mn(p, 3, 3, 0, 0, 0, 6, 3));
    lemma_tm(p, 9, 2, 2, 0, 0, 0, 4, 2, 6, 1, 0, 1, 1, 1, 0, 0);
    assert(t11 * s4 == (54) * mn(p, 3, 2, 1, 1, 1, 4, 2));
    lemma_tm(p, 9, 2, 2, 0, 0, 0, 4, 2, -6, 1, 0, 1, 0, 1, 1, 1);
    assert(t11 * s5 == (-54) * mn(p, 3, 2, 1, 0, 1, 5, 3));
    lemma_tm(p, 9, 2, 2, 0, 0, 0, 4, 2, 1, 0, 2, 0, 1, 1, 0, 0);
    assert(t11 * s6 == (9) * mn(p, 2, 4, 0, 1, 1, 4, 2));
    lemma_tm(p, 9, 2, 2, 0, 0, 0, 4, 2, 3, 0, 1, 1, 2, 0, 0, 0);
    assert(t11 * s7 == (27) * mn(p, 2, 3, 1, 2, 0, 4, 2));
    lemma_tm(p, 9, 2, 2, 0, 0, 0, 4, 2, -6, 0, 1, 1, 1, 0, 1, 1);
    assert(t11 * s8 == (-54) * mn(p, 2, 3, 1, 1, 0, 5, 3));
    lemma_tm(p, 9, 2, 2, 0, 0, 0, 4, 2, 9, 0, 1, 1, 0, 0, 2, 0);
    assert(t11 * s9 == (81) * mn(p, 2, 3, 1, 0, 0, 6, 2));
    lemma_tm(p, 9, 2, 2, 0, 0, 0, 4, 2, -3, 0, 0, 2, 1, 1, 0, 1);
    assert(t11 * s10 == (-27) * mn(p, 2, 2, 2, 1, 1, 4, 3));
    lemma_tm(p, 9, 2, 2, 0, 0, 0, 4, 2, 9, 0, 0, 2, 0, 1, 1, 0);
    assert(t11 * s11 == (81) * mn(p, 2, 2, 2, 0, 1, 5, 2));
    assert(t11 * q == (27) * mn(p, 4, 2, 0, 0, 1, 5, 2) + (54) * mn(p, 3, 3, 0, 1, 0, 5, 2) + (9) * mn(p, 3, 3, 0, 0, 2, 4, 2) + (-27) * mn(p, 3, 3, 0, 0, 0, 6, 3) + (54) * mn(p, 3, 2, 1, 1, 1, 4, 2) + (-54) * mn(p, 3, 2, 1, 0, 1, 5, 3) + (9) * mn(p, 2, 4, 0, 1, 1, 4, 2) + (27) * mn(p, 2, 3, 1, 2, 0, 4, 2) + (-54) * mn(p, 2, 3, 1, 1, 0, 5, 3) + (81) * mn(p, 2, 3, 1, 0, 0, 6, 2) + (-27) * mn(p, 2, 2, 2, 1, 1, 4, 3) + (81) * mn(p, 2, 2, 2, 0, 1, 5, 2));
    lemma_tm(p, 90, 2, 1, 1, 2, 1, 1, 0, 3, 2, 0, 0, 0, 1, 1, 0);
    assert(t12 * s0 == (270) * mn(p, 4, 1, 1, 2, 2, 2, 0));
    lemma_tm(p, 90, 2, 1, 1, 2, 1, 1, 0, 6, 1, 1, 0, 1, 0, 1, 0);
    assert(t12 * s1 == (540) * mn(p, 3, 2, 1, 3, 1, 2, 0));
    lemma_tm(p, 90, 2, 1, 1, 2, 1, 1, 0, 1, 1, 1, 0, 0, 2, 0, 0);
    assert(t12 * s2 == (90) * mn(p, 3, 2, 1, 2, 3, 1, 0));
    lemma_tm(p, 90, 2, 1, 1, 2, 1, 1, 0, -3, 1, 1, 0, 0, 0, 2, 1);
    assert(t12 * s3 == (-270) * mn(p, 3, 2, 1, 2, 1, 3, 1));
    lemma_tm(p, 90, 2, 1, 1, 2, 1, 1, 0, 6, 1, 0, 1, 1, 1, 0, 0);
    assert(t12 * s4 == (540) * mn(p, 3, 1, 2, 3, 2, 1, 0));
    lemma_tm(p, 90, 2, 1, 1, 2, 1, 1, 0, -6, 1, 0, 1, 0, 1, 1, 1);
    assert(t12 * s5 == (-540) * mn(p, 3, 1, 2, 2, 2, 2, 1));
    lemma_tm(p, 90, 2, 1, 1, 2, 1, 1, 0, 1, 0, 2, 0, 1, 1, 0, 0);
    assert(t12 * s6 == (90) * mn(p, 2, 3, 1, 3, 2, 1, 0));
    lemma_tm(p, 90, 2, 1, 1, 2, 1, 1, 0, 3, 0, 1, 1, 2, 0, 0, 0);
    assert(t12 * s7 == (270) * mn(p, 2, 2, 2, 4, 1, 1, 0));
    lemma_tm(p, 90, 2, 1, 1, 2, 1, 1, 0, -6, 0, 1, 1, 1, 0, 1, 1);
    assert(t12 * s8 == (-540) * mn(p, 2, 2, 2, 3, 1, 2, 1));
    lemma_tm(p, 90, 2, 1, 1, 2, 1, 1, 0, 9, 0, 1, 1, 0, 0, 2, 0);
    assert(t12 * s9 == (810) * mn(p, 2, 2, 2, 2, 1, 3, 0));
    lemma_tm(p, 90, 2, 1, 1, 2, 1, 1, 0, -3, 0, 0, 2, 1, 1, 0, 1);
    assert(t12 * s10 == (-270) * mn(p, 2, 1, 3, 3, 2, 1, 1));
    lemma_tm(p, 90, 2, 1, 1, 2, 1, 1, 0, 9, 0, 0, 2, 0, 1, 1, 0);
    assert(t12 * s11 == (810) * mn(p, 2, 1, 3, 2, 2, 2, 0));
    assert(t12 * q == (270) * mn(p, 4, 1, 1, 2, 2, 2, 0) + (540) * mn(p, 3, 2, 1, 3, 1, 2, 0) + (90) * mn(p, 3, 2, 1, 2, 3, 1, 0) + (-270) * mn(p, 3, 2, 1, 2, 1, 3, 1) + (540) * mn(p, 3, 1, 2, 3, 2, 1, 0) + (-540) * mn(p, 3, 1, 2, 2, 2, 2, 1) + (90) * mn(p, 2, 3, 1, 3, 2, 1, 0) + (270) * mn(p, 2, 2, 2, 4, 1, 1, 0) + (-540) * mn(p, 2, 2, 2, 3, 1, 2, 1) + (810) * mn(p, 2, 2, 2, 2, 1, 3, 0) + (-270) * mn(p, 2, 1, 3, 3, 2, 1, 1) + (810) * mn(p, 2, 1, 3, 2, 2, 2, 0));
    lemma_tm(p, 12, 2, 1, 1, 1, 3, 0, 0, 3, 2, 0, 0, 0, 1, 1, 0);
    assert(t13 * s0 == (36) * mn(p, 4, 1, 1, 1, 4, 1, 0));
    lemma_tm(p, 12, 2, 1, 1, 1, 3, 0, 0, 6, 1, 1, 0, 1, 0, 1, 0);
    assert(t13 * s1 == (72) * mn(p, 3, 2, 1, 2, 3, 1, 0));
    lemma_tm(p, 12, 2, 1, 1, 1, 3, 0, 0, 1, 1, 1, 0, 0, 2, 0, 0);
    assert(t13 * s2 == (12) * mn(p, 3, 2, 1, 1, 5, 0, 0));
    lemma_tm(p, 12, 2, 1, 1, 1, 3, 0, 0, -3, 1, 1, 0, 0, 0, 2, 1);
    assert(t13 * s3 == (-36) * mn(p, 3, 2, 1, 1, 3, 2, 1));
    lemma_tm(p, 12, 2, 1, 1, 1, 3, 0, 0, 6, 1, 0, 1, 1, 1, 0, 0);
    assert(t13 * s4 == (72) * mn(p, 3, 1, 2, 2, 4, 0, 0));
    lemma_tm(p, 12, 2, 1, 1, 1, 3, 0, 0, -6, 1, 0, 1, 0, 1, 1, 1);
    assert(t13 * s5 == (-72) * mn(p, 3, 1, 2, 1, 4, 1, 1));
    lemma_tm(p, 12, 2, 1, 1, 1, 3, 0, 0, 1, 0, 2, 0, 1, 1, 0, 0);
    assert(t13 * s6 == (12) * mn(p, 2, 3, 1, 2, 4, 0, 0));
    lemma_tm(p, 12, 2, 1, 1, 1, 3, 0, 0, 3, 0, 1, 1, 2, 0, 0, 0);
    assert(t13 * s7 == (36) * mn(p, 2, 2, 2, 3, 3, 0, 0));
    lemma_tm(p, 12, 2, 1, 1, 1, 3, 0, 0, -6, 0, 1, 1, 1, 0, 1, 1);
    assert(t13 * s8 == (-72) * mn(p, 2, 2, 2, 2, 3, 1, 1));
    lemma_tm(p, 12, 2, 1, 1, 1, 3, 0, 0, 9, 0, 1, 1, 0, 0, 2, 0);
    assert(t13 * s9 == (108) * mn(p, 2, 2, 2, 1, 3, 2, 0));
    lemma_tm(p, 12, 2, 1, 1, 1, 3, 0, 0, -3, 0, 0, 2, 1, 1, 0, 1);
    assert(t13 * s10 == (-36) * mn(p, 2, 1, 3, 2, 4, 0, 1));
    lemma_tm(p, 12, 2, 1, 1, 1, 3, 0, 0, 9, 0, 0, 2, 0, 1, 1, 0);
    assert(t13 * s11 == (108) * mn(p, 2, 1, 3, 1, 4, 1, 0));
    assert(t13 * q == (36) * mn(p, 4, 1, 1, 1, 4, 1, 0) + (72) * mn(p, 3, 2, 1, 2, 3, 1, 0) + (12) * mn(p, 3, 2, 1, 1, 5, 0, 0) + (-36) * mn(p, 3, 2, 1, 1, 3, 2, 1) + (72) * mn(p, 3, 1, 2, 2, 4, 0, 0) + (-72) * mn(p, 3, 1, 2, 1, 4, 1, 1) + (12) * mn(p, 2, 3, 1, 2, 4, 0, 0) + (36) * mn(p, 2, 2, 2, 3, 3, 0, 0) + (-72) * mn(p, 2, 2, 2, 2, 3, 1, 1) + (108) * mn(p, 2, 2, 2, 1, 3, 2, 0) + (-36) * mn(p, 2, 1, 3, 2, 4, 0, 1) + (108) * mn(p, 2, 1, 3, 1, 4, 1, 0));
    lemma_tm(p, -144, 2, 1, 1, 1, 1, 2, 1, 3, 2, 0, 0, 0, 1, 1, 0);
    assert(t14 * s0 == (-432) * mn(p, 4, 1, 1, 1, 2, 3, 1));
    lemma_tm(p, -144, 2, 1, 1, 1, 1, 2, 1, 6, 1, 1, 0, 1, 0, 1, 0);
    assert(t14 * s1 == (-864) * mn(p, 3, 2, 1, 2, 1, 3, 1));
    lemma_tm(p, -144, 2, 1, 1, 1, 1, 2, 1, 1, 1, 1, 0, 0, 2, 0, 0);
    assert(t14 * s2 == (-144) * mn(p, 3, 2, 1, 1, 3, 2, 1));
    lemma_tm(p, -144, 2, 1, 1, 1, 1, 2, 1, -3, 1, 1, 0, 0, 0, 2, 1);
    assert(t14 * s3 == (432) * mn(p, 3, 2, 1, 1, 1, 4, 2));
    lemma_tm(p, -144, 2, 1, 1, 1, 1, 2, 1, 6, 1, 0, 1, 1, 1, 0, 0);
    assert(t14 * s4 == (-864) * mn(p, 3, 1, 2, 2, 2, 2, 1));
    lemma_tm(p, -144, 2, 1, 1, 1, 1, 2, 1, -6, 1, 0, 1, 0, 1, 1, 1);
    assert(t14 * s5 == (864) * mn(p, 3, 1, 2, 1, 2, 3, 2));
    lemma_tm(p, -144, 2, 1, 1, 1, 1, 2, 1, 1, 0, 2, 0, 1, 1, 0, 0);
    assert(t14 * s6 == (-144) * mn(p, 2, 3, 1, 2, 2, 2, 1));
    lemma_tm(p, -144, 2, 1, 1, 1, 1, 2, 1, 3, 0, 1, 1, 2, 0, 0, 0);
    assert(t14 * s7 == (-432) * mn(p, 2, 2, 2, 3, 1, 2, 1));
    lemma_tm(p, -144, 2, 1, 1, 1, 1, 2, 1, -6, 0, 1, 1, 1, 0, 1, 1);
    assert(t14 * s8 == (864) * mn(p, 2, 2, 2, 2, 1, 3, 2));
    lemma_tm(p, -144, 2, 1, 1, 1, 1, 2, 1, 9, 0, 1, 1, 0, 0, 2, 0);
    assert(t14 * s9 == (-1296) * mn(p, 2, 2, 2, 1, 1, 4, 1));
    lemma_tm(p, -144, 2, 1, 1, 1, 1, 2, 1, -3, 0, 0, 2, 1, 1, 0, 1);
    assert(t14 * s10 == (432) * mn(p, 2, 1, 3, 2, 2, 2, 2));
    lemma_tm(p, -144, 2, 1, 1, 1, 1, 2, 1, 9, 0, 0, 2, 0, 1, 1, 0);
    assert(t14 * s11 == (-1296) * mn(p, 2, 1, 3, 1, 2, 3, 1));
    assert(t14 * q == (-432) * mn(p, 4, 1, 1, 1, 2, 3, 1) + (-864) * mn(p, 3, 2, 1, 2, 1, 3, 1) + (-144) * mn(p, 3, 2, 1, 1, 3, 2, 1) + (432) * mn(p, 3, 2, 1, 1, 1, 4, 2) + (-864) * mn(p, 3, 1, 2, 2, 2, 2, 1) + (864) * mn(p, 3, 1, 2, 1, 2, 3, 2) + (-144) * mn(p, 2, 3, 1, 2, 2, 2, 1) + (-432) * mn(p, 2, 2, 2, 3, 1, 2, 1) + (864) * mn(p, 2, 2, 2, 2, 1, 3, 2) + (-1296) * mn(p, 2, 2, 2, 1, 1, 4, 1) + (432) * mn(p, 2, 1, 3, 2, 2, 2, 2) + (-1296) * mn(p, 2, 1, 3, 1, 2, 3, 1));
    lemma_tm(p, -12, 2, 1, 1, 0, 3, 1, 1, 3, 2, 0, 0, 0, 1, 1, 0);
    assert(t15 * s0 == (-36) * mn(p, 4, 1, 1, 0, 4, 2, 1));
    lemma_tm(p, -12, 2, 1, 1, 0, 3, 1, 1, 6, 1, 1, 0, 1, 0, 1, 0);
    assert(t15 * s1 == (-72) * mn(p, 3, 2, 1, 1, 3, 2, 1));
    lemma_tm(p, -12, 2, 1, 1, 0, 3, 1, 1, 1, 1, 1, 0, 0, 2, 0, 0);
    assert(t15 * s2 == (-12) * mn(p, 3, 2, 1, 0, 5, 1, 1));
    lemma_tm(p, -12, 2, 1, 1, 0, 3, 1, 1, -3, 1, 1, 0, 0, 0, 2, 1);
    assert(t15 * s3 == (36) * mn(p, 3, 2, 1, 0, 3, 3, 2));
    lemma_tm(p, -12, 2, 1, 1, 0, 3, 1, 1, 6, 1, 0, 1, 1, 1, 0, 0);
    assert(t15 * s4 == (-72) * mn(p, 3, 1, 2, 1, 4, 1, 1));
    lemma_tm(p, -12, 2, 1, 1, 0, 3, 1, 1, -6, 1, 0, 1, 0, 1, 1, 1);
    assert(t15 * s5 == (72) * mn(p, 3, 1, 2, 0, 4, 2, 2));
    lemma_tm(p, -12, 2, 1, 1, 0, 3, 1, 1, 1, 0, 2, 0, 1, 1, 0, 0);
    assert(t15 * s6 == (-12) * mn(p, 2, 3, 1, 1, 4, 1, 1));
    lemma_tm(p, -12, 2, 1, 1, 0, 3, 1, 1, 3, 0, 1, 1, 2, 0, 0, 0);
    assert(t15 * s7 == (-36) * mn(p, 2, 2, 2, 2, 3, 1, 1));
    lemma_tm(p, -12, 2, 1, 1, 0, 3, 1, 1, -6, 0, 1, 1, 1, 0, 1, 1);
    assert(t15 * s8 == (72) * mn(p, 2, 2, 2, 1, 3, 2, 2));
    lemma_tm(p, -12, 2, 1, 1, 0, 3, 1, 1, 9, 0, 1, 1, 0, 0, 2, 0);
    assert(t15 * s9 == (-108) * mn(p, 2, 2, 2, 0, 3, 3, 1));
    lemma_tm(p, -12, 2, 1, 1, 0, 3, 1, 1, -3, 0, 0, 2, 1, 1, 0, 1);
    assert(t15 * s10 == (36) * mn(p, 2, 1, 3, 1, 4, 1, 2));
    lemma_tm(p, -12, 2, 1, 1, 0, 3, 1, 1, 9, 0, 0, 2, 0, 1, 1, 0);
    assert(t15 * s11 == (-108) * mn(p, 2, 1, 3, 0, 4, 2, 1));
    assert(t15 * q == (-36) * mn(p, 4, 1, 1, 0, 4, 2, 1) + (-72) * mn(p, 3, 2, 1, 1, 3, 2, 1) + (-12) * mn(p, 3, 2, 1, 0, 5, 1, 1) + (36) * mn(p, 3, 2, 1, 0, 3, 3, 2) + (-72) * mn(p, 3, 1, 2, 1, 4, 1, 1) + (72) * mn(p, 3, 1, 2, 0, 4, 2, 2) + (-12) * mn(p, 2, 3, 1, 1, 4, 1, 1) + (-36) * mn(p, 2, 2, 2, 2, 3, 1, 1) + (72) * mn(p, 2, 2, 2, 1, 3, 2, 2) + (-108) * mn(p, 2, 2, 2, 0, 3, 3, 1) + (36) * mn(p, 2, 1, 3, 1, 4, 1, 2) + (-108) * mn(p, 2, 1, 3, 0, 4, 2, 1));
    lemma_tm(p, 36, 2, 1, 1, 0, 1, 3, 2, 3, 2, 0, 0, 0, 1, 1, 0);
    assert(t16 * s0 == (108) * mn(p, 4, 1, 1, 0, 2, 4, 2));
    lemma_tm(p, 36, 2, 1, 1, 0, 1, 3, 2, 6, 1, 1, 0, 1, 0, 1, 0);
    assert(t16 * s1 == (216) * mn(p, 3, 2, 1, 1, 1, 4, 2));
    lemma_tm(p, 36, 2, 1, 1, 0, 1, 3, 2, 1, 1, 1, 0, 0, 2, 0, 0);
    assert(t16 * s2 == (36) * mn(p, 3, 2, 1, 0, 3, 3, 2));
    lemma_tm(p, 36, 2, 1, 1, 0, 1, 3, 2, -3, 1, 1, 0, 0, 0, 2, 1);
    assert(t16 * s3 == (-108) * mn(p, 3, 2, 1, 0, 1, 5, 3));
    lemma_tm(p, 36, 2, 1, 1, 0, 1, 3, 2, 6, 1, 0, 1, 1, 1, 0, 0);
    assert(t16 * s4 == (216) * mn(p, 3, 1, 2, 1, 2, 3, 2));
    lemma_tm(p, 36, 2, 1, 1, 0, 1, 3, 2, -6, 1, 0, 1, 0, 1, 1, 1);
    assert(t16 * s5 == (-216) * mn(p, 3, 1, 2, 0, 2, 4, 3));
    lemma_tm(p, 36, 2, 1, 1, 0, 1, 3, 2, 1, 0, 2, 0, 1, 1, 0, 0);
    assert(t16 * s6 == (36) * mn(p, 2, 3, 1, 1, 2, 3, 2));
    lemma_tm(p, 36, 2, 1, 1, 0, 1, 3, 2, 3, 0, 1, 1, 2, 0, 0, 0);
    assert(t16 * s7 == (108) * mn(p, 2, 2, 2, 2, 1, 3, 2));
    lemma_tm(p, 36, 2, 1, 1, 0, 1, 3, 2, -6, 0, 1, 1, 1, 0, 1, 1);
    assert(t16 * s8 == (-216) * mn(p, 2, 2, 2, 1, 1, 4, 3));
    lemma_tm(p, 36, 2, 1, 1, 0, 1, 3, 2, 9, 0, 1, 1, 0, 0, 2, 0);
    assert(t16 * s9 == (324) * mn(p, 2, 2, 2, 0, 1, 5, 2));
    lemma_tm(p, 36, 2, 1, 1, 0, 1, 3, 2, -3, 0, 0, 2, 1, 1, 0, 1);
    assert(t16 * s10 == (-108) * mn(p, 2, 1, 3, 1, 2, 3, 3));
    lemma_tm(p, 36, 2, 1, 1, 0, 1, 3, 2, 9, 0, 0, 2, 0, 1, 1, 0);
    assert(t16 * s11 == (324) * mn(p, 2, 1, 3, 0, 2, 4, 2));
    assert(t16 * q == (108) * mn(p, 4, 1, 1, 0, 2, 4, 2) + (216) * mn(p, 3, 2, 1, 1, 1, 4, 2) + (36) * mn(p, 3, 2, 1, 0, 3, 3, 2) + (-108) * mn(p, 3, 2, 1, 0, 1, 5, 3) + (216) * mn(p, 3, 1, 2, 1, 2, 3, 2) + (-216) * mn(p, 3, 1, 2, 0, 2, 4, 3) + (36) * mn(p, 2, 3, 1, 1, 2, 3, 2) + (108) * mn(p, 2, 2, 2, 2, 1, 3, 2) + (-216) * mn(p, 2, 2, 2, 1, 1, 4, 3) + (324) * mn(p, 2, 2, 2, 0, 1, 5, 2) + (-108) * mn(p, 2, 1, 3, 1, 2, 3, 3) + (324) * mn(p, 2, 1, 3, 0, 2, 4, 2));
    lemma_tm(p, 54, 2, 1, 1, 0, 1, 3, 0, 3, 2, 0, 0, 0, 1, 1, 0);
    assert(t17 * s0 == (162) * mn(p, 4, 1, 1, 0, 2, 4, 0));
    lemma_tm(p, 54, 2, 1, 1, 0, 1, 3, 0, 6, 1, 1, 0, 1, 0, 1, 0);
    assert(t17 * s1 == (324) * mn(p, 3, 2, 1, 1, 1, 4, 0));
    lemma_tm(p, 54, 2, 1, 1, 0, 1, 3, 0, 1, 1, 1, 0, 0, 2, 0, 0);
    assert(t17 * s2 == (54) * mn(p, 3, 2, 1, 0, 3, 3, 0));
    lemma_tm(p, 54, 2, 1, 1, 0, 1, 3, 0, -3, 1, 1, 0, 0, 0, 2, 1);
    assert(t17 * s3 == (-162) * mn(p, 3, 2, 1, 0, 1, 5, 1));
    lemma_tm(p, 54, 2, 1, 1, 0, 1, 3, 0, 6, 1, 0, 1, 1, 1, 0, 0);
    assert(t17 * s4 == (324) * mn(p, 3, 1, 2, 1, 2, 3, 0));
    lemma_tm(p, 54, 2, 1, 1, 0, 1, 3, 0, -6, 1, 0, 1, 0, 1, 1, 1);
    assert(t17 * s5 == (-324) * mn(p, 3, 1, 2, 0, 2, 4, 1));
    lemma_tm(p, 54, 2, 1, 1, 0, 1, 3, 0, 1, 0, 2, 0, 1, 1, 0, 0);
    assert(t17 * s6 == (54) * mn(p, 2, 3, 1, 1, 2, 3, 0));
    lemma_tm(p, 54, 2, 1, 1, 0, 1, 3, 0, 3, 0, 1, 1, 2, 0, 0, 0);
    assert(t17 * s7 == (162) * mn(p, 2, 2, 2, 2, 1, 3, 0));
    lemma_tm(p, 54, 2, 1, 1, 0, 1, 3, 0, -6, 0, 1, 1, 1, 0, 1, 1);
    assert(t17 * s8 == (-324) * mn(p, 2, 2, 2, 1, 1, 4, 1));
    lemma_tm(p, 54, 2, 1, 1, 0, 1, 3, 0, 9, 0, 1, 1, 0, 0, 2, 0);
    assert(t17 * s9 == (486) * mn(p, 2, 2, 2, 0, 1, 5, 0));
    lemma_tm(p, 54, 2, 1, 1, 0, 1, 3, 0, -3, 0, 0, 2, 1, 1, 0, 1);
    assert(t17 * s10 == (-162) * mn(p, 2, 1, 3, 1, 2, 3, 1));
    lemma_tm(p, 54, 2, 1, 1, 0, 1, 3, 0, 9, 0, 0, 2, 0, 1, 1, 0);
    assert(t17 * s11 == (486) * mn(p, 2, 1, 3, 0, 2, 4, 0));
    assert(t17 * q == (162) * mn(p, 4, 1, 1, 0, 2, 4, 0) + (324) * mn(p, 3, 2, 1, 1, 1, 4, 0) + (54) * mn(p, 3, 2, 1, 0, 3, 3, 0) + (-162) * mn(p, 3, 2, 1, 0, 1, 5, 1) + (324) * mn(p, 3, 1, 2, 1, 2, 3, 0) + (-324) * mn(p, 3, 1, 2, 0, 2, 4, 1) + (54) * mn(p, 2, 3, 1, 1, 2, 3, 0) + (162) * mn(p, 2, 2, 2, 2, 1, 3, 0) + (-324) * mn(p, 2, 2, 2, 1, 1, 4, 1) + (486) * mn(p, 2, 2, 2, 0, 1, 5, 0) + (-162) * mn(p, 2, 1, 3, 1, 2, 3, 1) + (486) * mn(p, 2, 1, 3, 0, 2, 4, 0));
    lemma_tm(p, 36, 2, 0, 2, 2, 2, 0, 0, 3, 2, 0, 0, 0, 1, 1, 0);
    assert(t18 * s0 == (108) * mn(p, 4, 0, 2, 2, 3, 1, 0));
    lemma_tm(p, 36, 2, 0, 2, 2, 2, 0, 0, 6, 1, 1, 0, 1, 0, 1, 0);
    assert(t18 * s1 == (216) * mn(p, 3, 1, 2, 3, 2, 1, 0));
    lemma_tm(p, 36, 2, 0, 2, 2, 2, 0, 0, 1, 1, 1, 0, 0, 2, 0, 0);
    assert(t18 * s2 == (36) * mn(p, 3, 1, 2, 2, 4, 0, 0));
    lemma_tm(p, 36, 2, 0, 2, 2, 2, 0, 0, -3, 1, 1, 0, 0, 0, 2, 1);
    assert(t18 * s3 == (-108) * mn(p, 3, 1, 2, 2, 2, 2, 1));
    lemma_tm(p, 36, 2, 0, 2, 2, 2, 0, 0, 6, 1, 0, 1, 1, 1, 0, 0);
    assert(t18 * s4 == (216) * mn(p, 3, 0, 3, 3, 3, 0, 0));
    lemma_tm(p, 36, 2, 0, 2, 2, 2, 0, 0, -6, 1, 0, 1, 0, 1, 1, 1);
    assert(t18 * s5 == (-216) * mn(p, 3, 0, 3, 2, 3, 1, 1));
    lemma_tm(p, 36, 2, 0, 2, 2, 2, 0, 0, 1, 0, 2, 0, 1, 1, 0, 0);
    assert(t18 * s6 == (36) * mn(p, 2, 2, 2, 3, 3, 0, 0));
    lemma_tm(p, 36, 2, 0, 2, 2, 2, 0, 0, 3, 0, 1, 1, 2, 0, 0, 0);
    assert(t18 * s7 == (108) * mn(p, 2, 1, 3, 4, 2, 0, 0));
    lemma_tm(p, 36, 2, 0, 2, 2, 2, 0, 0, -6, 0, 1, 1, 1, 0, 1, 1);
    assert(t18 * s8 == (-216) * mn(p, 2, 1, 3, 3, 2, 1, 1));
    lemma_tm(p, 36, 2, 0, 2, 2, 2, 0, 0, 9, 0, 1, 1, 0, 0, 2, 0);
    assert(t18 * s9 == (324) * mn(p, 2, 1, 3, 2, 2, 2, 0));
    lemma_tm(p, 36, 2, 0, 2, 2, 2, 0, 0, -3, 0, 0, 2, 1, 1, 0, 1);
    assert(t18 * s10 == (-108) * mn(p, 2, 0, 4, 3, 3, 0, 1));
    lemma_tm(p, 36, 2, 0, 2, 2, 2, 0, 0, 9, 0, 0, 2, 0, 1, 1, 0);
    assert(t18 * s11 == (324) * mn(p, 2, 0, 4, 2, 3, 1, 0));
    assert(t18 * q == (108) * mn(p, 4, 0, 2, 2, 3, 1, 0) + (216) * mn(p, 3, 1, 2, 3, 2, 1, 0) + (36) * mn(p, 3, 1, 2, 2, 4, 0, 0) + (-108) * mn(p, 3, 1, 2, 2, 2, 2, 1) + (216) * mn(p, 3, 0, 3, 3, 3, 0, 0) + (-216) * mn(p, 3, 0, 3, 2, 3, 1, 1) + (36) * mn(p, 2, 2, 2, 3, 3, 0, 0) + (108) * mn(p, 2, 1, 3, 4, 2, 0, 0) + (-216) * mn(p, 2, 1, 3, 3, 2, 1, 1) + (324) * mn(p, 2, 1, 3, 2, 2, 2, 0) + (-108) * mn(p, 2, 0, 4, 3, 3, 0, 1) + (324) * mn(p, 2, 0, 4, 2, 3, 1, 0));
    lemma_tm(p, -90, 2, 0, 2, 1, 2, 1, 1, 3, 2, 0, 0, 0, 1, 1, 0);
    assert(t19 * s0 == (-270) * mn(p, 4, 0, 2, 1, 3, 2, 1));
    lemma_tm(p, -90, 2, 0, 2, 1, 2, 1, 1, 6, 1, 1, 0, 1, 0, 1, 0);
    assert(t19 * s1 == (-540) * mn(p, 3, 1, 2, 2, 2, 2, 1));
    lemma_tm(p, -90, 2, 0, 2, 1, 2, 1, 1, 1, 1, 1, 0, 0, 2, 0, 0);
    assert(t19 * s2 == (-90) * mn(p, 3, 1, 2, 1, 4, 1, 1));
    lemma_tm(p, -90, 2, 0, 2, 1, 2, 1, 1, -3, 1, 1, 0, 0, 0, 2, 1);
    assert(t19 * s3 == (270) * mn(p, 3, 1, 2, 1, 2, 3, 2));
    lemma_tm(p, -90, 2, 0, 2, 1, 2, 1, 1, 6, 1, 0, 1, 1, 1, 0, 0);
    assert(t19 * s4 == (-540) * mn(p, 3, 0, 3, 2, 3, 1, 1));
    lemma_tm(p, -90, 2, 0, 2, 1, 2, 1, 1, -6, 1, 0, 1, 0, 1, 1, 1);
    assert(t19 * s5 == (540) * mn(p, 3, 0, 3, 1, 3, 2, 2));
    lemma_tm(p, -90, 2, 0, 2, 1, 2, 1, 1, 1, 0, 2, 0, 1, 1, 0, 0);
    assert(t19 * s6 == (-90) * mn(p, 2, 2, 2, 2, 3, 1, 1));
    lemma_tm(p, -90, 2, 0, 2, 1, 2, 1, 1, 3, 0, 1, 1, 2, 0, 0, 0);
    assert(t19 * s7 == (-270) * mn(p, 2, 1, 3, 3, 2, 1, 1));
    lemma_tm(p, -90, 2, 0, 2, 1, 2, 1, 1, -6, 0, 1, 1, 1, 0, 1, 1);
    assert(t19 * s8 == (540) * mn(p, 2, 1, 3, 2, 2, 2, 2));
    lemma_tm(p, -90, 2, 0, 2, 1, 2, 1, 1, 9, 0, 1, 1, 0, 0, 2, 0);
    assert(t19 * s9 == (-810) * mn(p, 2, 1, 3, 1, 2, 3, 1));
    lemma_tm(p, -90, 2, 0, 2, 1, 2, 1, 1, -3, 0, 0, 2, 1, 1, 0, 1);
    assert(t19 * s10 == (270) * mn(p, 2, 0, 4, 2, 3, 1, 2));
    lemma_tm(p, -90, 2, 0, 2, 1, 2, 1, 1, 9, 0, 0, 2, 0, 1, 1, 0);
    assert(t19 * s11 == (-810) * mn(p, 2, 0, 4, 1, 3, 2, 1));
    assert(t19 * q == (-270) * mn(p, 4, 0, 2, 1, 3, 2, 1) + (-540) * mn(p, 3, 1, 2, 2, 2, 2, 1) + (-90) * mn(p, 3, 1, 2, 1, 4, 1, 1) + (270) * mn(p, 3, 1, 2, 1, 2, 3, 2) + (-540) * mn(p, 3, 0, 3, 2, 3, 1, 1) + (540) * mn(p, 3, 0, 3, 1, 3, 2, 2) + (-90) * mn(p, 2, 2, 2, 2, 3, 1, 1) + (-270) * mn(p, 2, 1, 3, 3, 2, 1, 1) + (540) * mn(p, 2, 1, 3, 2, 2, 2, 2) + (-810) * mn(p, 2, 1, 3, 1, 2, 3, 1) + (270) * mn(p, 2, 0, 4, 2, 3, 1, 2) + (-810) * mn(p, 2, 0, 4, 1, 3, 2, 1));
    lemma_tm(p, 36, 2, 0, 2, 0, 2, 2, 2, 3, 2, 0, 0, 0, 1, 1, 0);
    assert(t20 * s0 == (108) * mn(p, 4, 0, 2, 0, 3, 3, 2));
    lemma_tm(p, 36, 2, 0, 2, 0, 2, 2, 2, 6, 1, 1, 0, 1, 0, 1, 0);
    assert(t20 * s1 == (216) * mn(p, 3, 1, 2, 1, 2, 3, 2));
    lemma_tm(p, 36, 2, 0, 2, 0, 2, 2, 2, 1, 1, 1, 0, 0, 2, 0, 0);
    assert(t20 * s2 == (36) * mn(p, 3, 1, 2, 0, 4, 2, 2));
    lemma_tm(p, 36, 2, 0, 2, 0, 2, 2, 2, -3, 1, 1, 0, 0, 0, 2, 1);
    assert(t20 * s3 == (-108) * mn(p, 3, 1, 2, 0, 2, 4, 3));
    lemma_tm(p, 36, 2, 0, 2, 0, 2, 2, 2, 6, 1, 0, 1, 1, 1, 0, 0);
    assert(t20 * s4 == (216) * mn(p, 3, 0, 3, 1, 3, 2, 2));
    lemma_tm(p, 36, 2, 0, 2, 0, 2, 2, 2, -6, 1, 0, 1, 0, 1, 1, 1);
    assert(t20 * s5 == (-216) * mn(p, 3, 0, 3, 0, 3, 3, 3));
    lemma_tm(p, 36, 2, 0, 2, 0, 2, 2, 2, 1, 0, 2, 0, 1, 1, 0, 0);
    assert(t20 * s6 == (36) * mn(p, 2, 2, 2, 1, 3, 2, 2));
    lemma_tm(p, 36, 2, 0, 2, 0, 2, 2, 2, 3, 0, 1, 1, 2, 0, 0, 0);
    assert(t20 * s7 == (108) * mn(p, 2, 1, 3, 2, 2, 2, 2));
    lemma_tm(p, 36, 2, 0, 2, 0, 2, 2, 2, -6, 0, 1, 1, 1, 0, 1, 1);
    assert(t20 * s8 == (-216) * mn(p, 2, 1, 3, 1, 2, 3, 3));
    lemma_tm(p, 36, 2, 0, 2, 0, 2, 2, 2, 9, 0, 1, 1, 0, 0, 2, 0);
    assert(t20 * s9 == (324) * mn(p, 2, 1, 3, 0, 2, 4, 2));
    lemma_tm(p, 36, 2, 0, 2, 0, 2, 2, 2, -3, 0, 0, 2, 1, 1, 0, 1);
    assert(t20 * s10 == (-108) * mn(p, 2, 0, 4, 1, 3, 2, 3));
    lemma_tm(p, 36, 2, 0, 2, 0, 2, 2, 2, 9, 0, 0, 2, 0, 1, 1, 0);
    assert(t20 * s11 == (324) * mn(p, 2, 0, 4, 0, 3, 3, 2));
    assert(t20 * q == (108) * mn(p, 4, 0, 2, 0, 3, 3, 2) + (216) * mn(p, 3, 1, 2, 1, 2, 3, 2) + (36) * mn(p, 3, 1, 2, 0, 4, 2, 2) + (-108) * mn(p, 3, 1, 2, 0, 2, 4, 3) + (216) * mn(p, 3, 0, 3, 1, 3, 2, 2) + (-216) * mn(p, 3, 0, 3, 0, 3, 3, 3) + (36) * mn(p, 2, 2, 2, 1, 3, 2, 2) + (108) * mn(p, 2, 1, 3, 2, 2, 2, 2) + (-216) * mn(p, 2, 1, 3, 1, 2, 3, 3) + (324) * mn(p, 2, 1, 3, 0, 2, 4, 2) + (-108) * mn(p, 2, 0, 4, 1, 3, 2, 3) + (324) * mn(p, 2, 0, 4, 0, 3, 3, 2));
    lemma_tm(p, 54, 2, 0, 2, 0, 2, 2, 0, 3, 2, 0, 0, 0, 1, 1, 0);
    assert(t21 * s0 == (162) * mn(p, 4, 0, 2, 0, 3, 3, 0));
    lemma_tm(p, 54, 2, 0, 2, 0, 2, 2, 0, 6, 1, 1, 0, 1, 0, 1, 0);
    assert(t21 * s1 == (324) * mn(p, 3, 1, 2, 1, 2, 3, 0));
    lemma_tm(p, 54, 2, 0, 2, 0, 2, 2, 0, 1, 1, 1, 0, 0, 2, 0, 0);
    assert(t21 * s2 == (54) * mn(p, 3, 1, 2, 0, 4, 2, 0));
    lemma_tm(p, 54, 2, 0, 2, 0, 2, 2, 0, -3, 1, 1, 0, 0, 0, 2, 1);
    assert(t21 * s3 == (-162) * mn(p, 3, 1, 2, 0, 2, 4, 1));
    lemma_tm(p, 54, 2, 0, 2, 0, 2, 2, 0, 6, 1, 0, 1, 1, 1, 0, 0);
    assert(t21 * s4 == (324) * mn(p, 3, 0, 3, 1, 3, 2, 0));
    lemma_tm(p, 54, 2, 0, 2, 0, 2, 2, 0, -6, 1, 0, 1, 0, 1, 1, 1);
    assert(t21 * s5 == (-324) * mn(p, 3, 0, 3, 0, 3, 3, 1));
    lemma_tm(p, 54, 2, 0, 2, 0, 2, 2, 0, 1, 0, 2, 0, 1, 1, 0, 0);
    assert(t21 * s6 == (54) * mn(p, 2, 2, 2, 1, 3, 2, 0));
    lemma_tm(p, 54, 2, 0, 2, 0, 2, 2, 0, 3, 0, 1, 1, 2, 0, 0, 0);
    assert(t21 * s7 == (162) * mn(p, 2, 1, 3, 2, 2, 2, 0));
    lemma_tm(p, 54, 2, 0, 2, 0, 2, 2, 0, -6, 0, 1, 1, 1, 0, 1, 1);
    assert(t21 * s8 == (-324) * mn(p, 2, 1, 3, 1, 2, 3, 1));
    lemma_tm(p, 54, 2, 0, 2, 0, 2, 2, 0, 9, 0, 1, 1, 0, 0, 2, 0);
    assert(t21 * s9 == (486) * mn(p, 2, 1, 3, 0, 2, 4, 0));
    lemma_tm(p, 54, 2, 0, 2, 0, 2, 2, 0, -3, 0, 0, 2, 1, 1, 0, 1);
    assert(t21 * s10 == (-162) * mn(p, 2, 0, 4, 1, 3, 2, 1));
    lemma_tm(p, 54, 2, 0, 2, 0, 2, 2, 0, 9, 0, 0, 2, 0, 1, 1, 0);
    assert(t21 * s11 == (486) * mn(p, 2, 0, 4, 0, 3, 3, 0));
    assert(t21 * q == (162) * mn(p, 4, 0, 2, 0, 3, 3, 0) + (324) * mn(p, 3, 1, 2, 1, 2, 3, 0) + (54) * mn(p, 3, 1, 2, 0, 4, 2, 0) + (-162) * mn(p, 3, 1, 2, 0, 2, 4, 1) + (324) * mn(p, 3, 0, 3, 1, 3, 2, 0) + (-324) * mn(p, 3, 0, 3, 0, 3, 3, 1) + (54) * mn(p, 2, 2, 2, 1, 3, 2, 0) + (162) * mn(p, 2, 1, 3, 2, 2, 2, 0) + (-324) * mn(p, 2, 1, 3, 1, 2, 3, 1) + (486) * mn(p, 2, 1, 3, 0, 2, 4, 0) + (-162) * mn(p, 2, 0, 4, 1, 3, 2, 1) + (486) * mn(p, 2, 0, 4, 0, 3, 3, 0));
    lemma_tm(p, 12, 1, 3, 0, 2, 1, 1, 0, 3, 2, 0, 0, 0, 1, 1, 0);
    assert(t22 * s0 == (36) * mn(p, 3, 3, 0, 2, 2, 2, 0));
    lemma_tm(p, 12, 1, 3, 0, 2, 1, 1, 0, 6, 1, 1, 0, 1, 0, 1, 0);
    assert(t22 * s1 == (72) * mn(p, 2, 4, 0, 3, 1, 2, 0));
    lemma_tm(p, 12, 1, 3, 0, 2, 1, 1, 0, 1, 1, 1, 0, 0, 2, 0, 0);
    assert(t22 * s2 == (12) * mn(p, 2, 4, 0, 2, 3, 1, 0));
    lemma_tm(p, 12, 1, 3, 0, 2, 1, 1, 0, -3, 1, 1, 0, 0, 0, 2, 1);
    assert(t22 * s3 == (-36) * mn(p, 2, 4, 0, 2, 1, 3, 1));
    lemma_tm(p, 12, 1, 3, 0, 2, 1, 1, 0, 6, 1, 0, 1, 1, 1, 0, 0);
    assert(t22 * s4 == (72) * mn(p, 2, 3, 1, 3, 2, 1, 0));
    lemma_tm(p, 12, 1, 3, 0, 2, 1, 1, 0, -6, 1, 0, 1, 0, 1, 1, 1);
    assert(t22 * s5 == (-72) * mn(p, 2, 3, 1, 2, 2, 2, 1));
    lemma_tm(p, 12, 1, 3, 0, 2, 1, 1, 0, 1, 0, 2, 0, 1, 1, 0, 0);
    assert(t22 * s6 == (12) * mn(p, 1, 5, 0, 3, 2, 1, 0));
    lemma_tm(p, 12, 1, 3, 0, 2, 1, 1, 0, 3, 0, 1, 1, 2, 0, 0, 0);
    assert(t22 * s7 == (36) * mn(p, 1, 4, 1, 4, 1, 1, 0));
    lemma_tm(p, 12, 1, 3, 0, 2, 1, 1, 0, -6, 0, 1, 1, 1, 0, 1, 1);
    assert(t22 * s8 == (-72) * mn(p, 1, 4, 1, 3, 1, 2, 1));
    lemma_tm(p, 12, 1, 3, 0, 2, 1, 1, 0, 9, 0, 1, 1, 0, 0, 2, 0);
    assert(t22 * s9 == (108) * mn(p, 1, 4, 1, 2, 1, 3, 0));
    lemma_tm(p, 12, 1, 3, 0, 2, 1, 1, 0, -3, 0, 0, 2, 1, 1, 0, 1);
    assert(t22 * s10 == (-36) * mn(p, 1, 3, 2, 3, 2, 1, 1));
    lemma_tm(p, 12, 1, 3, 0, 2, 1, 1, 0, 9, 0, 0, 2, 0, 1, 1, 0);
    assert(t22 * s11 == (108) * mn(p, 1, 3, 2, 2, 2, 2, 0));
    assert(t22 * q == (36) * mn(p, 3, 3, 0, 2, 2, 2, 0) + (72) * mn(p, 2, 4, 0, 3, 1, 2, 0) + (12) * mn(p, 2, 4, 0, 2, 3, 1, 0) + (-36) * mn(p, 2, 4, 0, 2, 1, 3, 1) + (72) * mn(p, 2, 3, 1, 3, 2, 1, 0) + (-72) * mn(p, 2, 3, 1, 2, 2, 2, 1) + (12) * mn(p, 1, 5, 0, 3, 2, 1, 0) + (36) * mn(p, 1, 4, 1, 4, 1, 1, 0) + (-72) * mn(p, 1, 4, 1, 3, 1, 2, 1) + (108) * mn(p, 1, 4, 1, 2, 1, 3, 0) + (-36) * mn(p, 1, 3, 2, 3, 2, 1, 1) + (108) * mn(p, 1, 3, 2, 2, 2, 2, 0));
    lemma_tm(p, 2, 1, 3, 0, 1, 3, 0, 0, 3, 2, 0, 0, 0, 1, 1, 0);
    assert(t23 * s0 == (6) * mn(p, 3, 3, 0, 1, 4, 1, 0));
    lemma_tm(p, 2, 1, 3, 0, 1, 3, 0, 0, 6, 1, 1, 0, 1, 0, 1, 0);
    assert(t23 * s1 == (12) * mn(p, 2, 4, 0, 2, 3, 1, 0));
    lemma_tm(p, 2, 1, 3, 0, 1, 3, 0, 0, 1, 1, 1, 0, 0, 2, 0, 0);
    assert(t23 * s2 == (2) * mn(p, 2, 4, 0, 1, 5, 0, 0));
    lemma_tm(p, 2, 1, 3, 0, 1, 3, 0, 0, -3, 1, 1, 0, 0, 0, 2, 1);
    assert(t23 * s3 == (-6) * mn(p, 2, 4, 0, 1, 3, 2, 1));
    lemma_tm(p, 2, 1, 3, 0, 1, 3, 0, 0, 6, 1, 0, 1, 1, 1, 0, 0);
    assert(t23 * s4 == (12) * mn(p, 2, 3, 1, 2, 4, 0, 0));
    lemma_tm(p, 2, 1, 3, 0, 1, 3, 0, 0, -6, 1, 0, 1, 0, 1, 1, 1);
    assert(t23 * s5 == (-12) * mn(p, 2, 3, 1, 1, 4, 1, 1));
    lemma_tm(p, 2, 1, 3, 0, 1, 3, 0, 0, 1, 0, 2, 0, 1, 1, 0, 0);
    assert(t23 * s6 == (2) * mn(p, 1, 5, 0, 2, 4, 0, 0));
    lemma_tm(p, 2, 1, 3, 0, 1, 3, 0, 0, 3, 0, 1, 1, 2, 0, 0, 0);
    assert(t23 * s7 == (6) * mn(p, 1, 4, 1, 3, 3, 0, 0));
    lemma_tm(p, 2, 1, 3, 0, 1, 3, 0, 0, -6, 0, 1, 1, 1, 0, 1, 1);
    assert(t23 * s8 == (-12) * mn(p, 1, 4, 1, 2, 3, 1, 1));
    lemma_tm(p, 2, 1, 3, 0, 1, 3, 0, 0, 9, 0, 1, 1, 0, 0, 2, 0);
    assert(t23 * s9 == (18) * mn(p, 1, 4, 1, 1, 3, 2, 0));
    lemma_tm(p, 2, 1, 3, 0, 1, 3, 0, 0, -3, 0, 0, 2, 1, 1, 0, 1);
    assert(t23 * s10 == (-6) * mn(p, 1, 3, 2, 2, 4, 0, 1));
    lemma_tm(p, 2, 1, 3, 0, 1, 3, 0, 0, 9, 0, 0, 2, 0, 1, 1, 0);
    assert(t23 * s11 == (18) * mn(p, 1, 3, 2, 1, 4, 1, 0));
    assert(t23 * q == (6) * mn(p, 3, 3, 0, 1, 4, 1, 0) + (12) * mn(p, 2, 4, 0, 2, 3, 1, 0) + (2) * mn(p, 2, 4, 0, 1, 5, 0, 0) + (-6) * mn(p, 2, 4, 0, 1, 3, 2, 1) + (12) * mn(p, 2, 3, 1, 2, 4, 0, 0) + (-12) * mn(p, 2, 3, 1, 1, 4, 1, 1) + (2) * mn(p, 1, 5, 0, 2, 4, 0, 0) + (6) * mn(p, 1, 4, 1, 3, 3, 0, 0) + (-12) * mn(p, 1, 4, 1, 2, 3, 1, 1) + (18) * mn(p, 1, 4, 1, 1, 3, 2, 0) + (-6) * mn(p, 1, 3, 2, 2, 4, 0, 1) + (18) * mn(p, 1, 3, 2, 1, 4, 1, 0));
    lemma_tm(p, -6, 1, 3, 0, 1, 1, 2, 1, 3, 2, 0, 0, 0, 1, 1, 0);
    assert(t24 * s0 == (-18) * mn(p, 3, 3, 0, 1, 2, 3, 1));
    lemma_tm(p, -6, 1, 3, 0, 1, 1, 2, 1, 6, 1, 1, 0, 1, 0, 1, 0);
    assert(t24 * s1 == (-36) * mn(p, 2, 4, 0, 2, 1, 3, 1));
    lemma_tm(p, -6, 1, 3, 0, 1, 1, 2, 1, 1, 1, 1, 0, 0, 2, 0, 0);
    assert(t24 * s2 == (-6) * mn(p, 2, 4, 0, 1, 3, 2, 1));
    lemma_tm(p, -6, 1, 3, 0, 1, 1, 2, 1, -3, 1, 1, 0, 0, 0, 2, 1);
    assert(t24 * s3 == (18) * mn(p, 2, 4, 0, 1, 1, 4, 2));
    lemma_tm(p, -6, 1, 3, 0, 1, 1, 2, 1, 6, 1, 0, 1, 1, 1, 0, 0);
    assert(t24 * s4 == (-36) * mn(p, 2, 3, 1, 2, 2, 2, 1));
    lemma_tm(p, -6, 1, 3, 0, 1, 1, 2, 1, -6, 1, 0, 1, 0, 1, 1, 1);
    assert(t24 * s5 == (36) * mn(p, 2, 3, 1, 1, 2, 3, 2));
    lemma_tm(p, -6, 1, 3, 0, 1, 1, 2, 1, 1, 0, 2, 0, 1, 1, 0, 0);
    assert(t24 * s6 == (-6) * mn(p, 1, 5, 0, 2, 2, 2, 1));
    lemma_tm(p, -6, 1, 3, 0, 1, 1, 2, 1, 3, 0, 1, 1, 2, 0, 0, 0);
    assert(t24 * s7 == (-18) * mn(p, 1, 4, 1, 3, 1, 2, 1));
    lemma_tm(p, -6, 1, 3, 0, 1, 1, 2, 1, -6, 0, 1, 1, 1, 0, 1, 1);
    assert(t24 * s8 == (36) * mn(p, 1, 4, 1, 2, 1, 3, 2));
    lemma_tm(p, -6, 1, 3, 0, 1, 1, 2, 1, 9, 0, 1, 1, 0, 0, 2, 0);
    assert(t24 * s9 == (-54) * mn(p, 1, 4, 1, 1, 1, 4, 1));
    lemma_tm(p, -6, 1, 3, 0, 1, 1, 2, 1, -3, 0, 0, 2, 1, 1, 0, 1);
    assert(t24 * s10 == (18) * mn(p, 1, 3, 2, 2, 2, 2, 2));
    lemma_tm(p, -6, 1, 3, 0, 1, 1, 2, 1, 9, 0, 0, 2, 0, 1, 1, 0);
    assert(t24 * s11 == (-54) * mn(p, 1, 3, 2, 1, 2, 3, 1));
    assert(t24 * q == (-18) * mn(p, 3, 3, 0, 1, 2, 3, 1) + (-36) * mn(p, 2, 4, 0, 2, 1, 3, 1) + (-6) * mn(p, 2, 4, 0, 1, 3, 2, 1) + (18) * mn(p, 2, 4, 0, 1, 1, 4, 2) + (-36) * mn(p, 2, 3, 1, 2, 2, 2, 1) + (36) * mn(p, 2, 3, 1, 1, 2, 3, 2) + (-6) * mn(p, 1, 5, 0, 2, 2, 2, 1) + (-18) * mn(p, 1, 4, 1, 3, 1, 2, 1) + (36) * mn(p, 1, 4, 1, 2, 1, 3, 2) + (-54) * mn(p, 1, 4, 1, 1, 1, 4, 1) + (18) * mn(p, 1, 3, 2, 2, 2, 2, 2) + (-54) * mn(p, 1, 3, 2, 1, 2, 3, 1));
    lemma_tm(p, 36, 1, 2, 1, 3, 0, 1, 0, 3, 2, 0, 0, 0, 1, 1, 0);
    assert(t25 * s0 == (108) * mn(p, 3, 2, 1, 3, 1, 2, 0));
    lemma_tm(p, 36, 1, 2, 1, 3, 0, 1, 0, 6, 1, 1, 0, 1, 0, 1, 0);
    assert(t25 * s1 == (216) * mn(p, 2, 3, 1, 4, 0, 2, 0));
    lemma_tm(p, 36, 1, 2, 1, 3, 0, 1, 0, 1, 1, 1, 0, 0, 2, 0, 0);
    assert(t25 * s2 == (36) * mn(p, 2, 3, 1, 3, 2, 1, 0));
    lemma_tm(p, 36, 1, 2, 1, 3, 0, 1, 0, -3, 1, 1, 0, 0, 0, 2, 1);
    assert(t25 * s3 == (-108) * mn(p, 2, 3, 1, 3, 0, 3, 1));
    lemma_tm(p, 36, 1, 2, 1, 3, 0, 1, 0, 6, 1, 0, 1, 1, 1, 0, 0);
    assert(t25 * s4 == (216) * mn(p, 2, 2, 2, 4, 1, 1, 0));
    lemma_tm(p, 36, 1, 2, 1, 3, 0, 1, 0, -6, 1, 0, 1, 0, 1, 1, 1);
    assert(t25 * s5 == (-216) * mn(p, 2, 2, 2, 3, 1, 2, 1));
    lemma_tm(p, 36, 1, 2, 1, 3, 0, 1, 0, 1, 0, 2, 0, 1, 1, 0, 0);
    assert(t25 * s6 == (36) * mn(p, 1, 4, 1, 4, 1, 1, 0));
    lemma_tm(p, 36, 1, 2, 1, 3, 0, 1, 0, 3, 0, 1, 1, 2, 0, 0, 0);
    assert(t25 * s7 == (108) * mn(p, 1, 3, 2, 5, 0, 1, 0));
    lemma_tm(p, 36, 1, 2, 1, 3, 0, 1, 0, -6, 0, 1, 1, 1, 0, 1, 1);
    assert(t25 * s8 == (-216) * mn(p, 1, 3, 2, 4, 0, 2, 1));
    lemma_tm(p, 36, 1, 2, 1, 3, 0, 1, 0, 9, 0, 1, 1, 0, 0, 2, 0);
    assert(t25 * s9 == (324) * mn(p, 1, 3, 2, 3, 0, 3, 0));
    lemma_tm(p, 36, 1, 2, 1, 3, 0, 1, 0, -3, 0, 0, 2, 1, 1, 0, 1);
    assert(t25 * s10 == (-108) * mn(p, 1, 2, 3, 4, 1, 1, 1));
    lemma_tm(p, 36, 1, 2, 1, 3, 0, 1, 0, 9, 0, 0, 2, 0, 1, 1, 0);
    assert(t25 * s11 == (324) * mn(p, 1, 2, 3, 3, 1, 2, 0));
    assert(t25 * q == (108) * mn(p, 3, 2, 1, 3, 1, 2, 0) + (216) * mn(p, 2, 3, 1, 4, 0, 2, 0) + (36) * mn(p, 2, 3, 1, 3, 2, 1, 0) + (-108) * mn(p, 2, 3, 1, 3, 0, 3, 1) + (216) * mn(p, 2, 2, 2, 4, 1, 1, 0) + (-216) * mn(p, 2, 2, 2, 3, 1, 2, 1) + (36) * mn(p, 1, 4, 1, 4, 1, 1, 0) + (108) * mn(p, 1, 3, 2, 5, 0, 1, 0) + (-216) * mn(p, 1, 3, 2, 4, 0, 2, 1) + (324) * mn(p, 1, 3, 2, 3, 0, 3, 0) + (-108) * mn(p, 1, 2, 3, 4, 1, 1, 1) + (324) * mn(p, 1, 2, 3, 3, 1, 2, 0));
    lemma_tm(p, 18, 1, 2, 1, 2, 2, 0, 0, 3, 2, 0, 0, 0, 1, 1, 0);
    assert(t26 * s0 == (54) * mn(p, 3, 2, 1, 2, 3, 1, 0));
    lemma_tm(p, 18, 1, 2, 1, 2, 2, 0, 0, 6, 1, 1, 0, 1, 0, 1, 0);
    assert(t26 * s1 == (108) * mn(p, 2, 3, 1, 3, 2, 1, 0));
    lemma_tm(p, 18, 1, 2, 1, 2, 2, 0, 0, 1, 1, 1, 0, 0, 2, 0, 0);
    assert(t26 * s2 == (18) * mn(p, 2, 3, 1, 2, 4, 0, 0));
    lemma_tm(p, 18, 1, 2, 1, 2, 2, 0, 0, -3, 1, 1, 0, 0, 0, 2, 1);
    assert(t26 * s3 == (-54) * mn(p, 2, 3, 1, 2, 2, 2, 1));
    lemma_tm(p, 18, 1, 2, 1, 2, 2, 0, 0, 6, 1, 0, 1, 1, 1, 0, 0);
    assert(t26 * s4 == (108) * mn(p, 2, 2, 2, 3, 3, 0, 0));
    lemma_tm(p, 18, 1, 2, 1, 2, 2, 0, 0, -6, 1, 0, 1, 0, 1, 1, 1);
    assert(t26 * s5 == (-108) * mn(p, 2, 2, 2, 2, 3, 1, 1));
    lemma_tm(p, 18, 1, 2, 1, 2, 2, 0, 0, 1, 0, 2, 0, 1, 1, 0, 0);
    assert(t26 * s6 == (18) * mn(p, 1, 4, 1, 3, 3, 0, 0));
    lemma_tm(p, 18, 1, 2, 1, 2, 2, 0, 0, 3, 0, 1, 1, 2, 0, 0, 0);
    assert(t26 * s7 == (54) * mn(p, 1, 3, 2, 4, 2, 0, 0));
    lemma_tm(p, 18, 1, 2, 1, 2, 2, 0, 0, -6, 0, 1, 1, 1, 0, 1, 1);
    assert(t26 * s8 == (-108) * mn(p, 1, 3, 2, 3, 2, 1, 1));
    lemma_tm(p, 18, 1, 2, 1, 2, 2, 0, 0, 9, 0, 1, 1, 0, 0, 2, 0);
    assert(t26 * s9 == (162) * mn(p, 1, 3, 2, 2, 2, 2, 0));
    lemma_tm(p, 18, 1, 2, 1, 2, 2, 0, 0, -3, 0, 0, 2, 1, 1, 0, 1);
    assert(t26 * s10 == (-54) * mn(p, 1, 2, 3, 3, 3, 0, 1));
    lemma_tm(p, 18, 1, 2, 1, 2, 2, 0, 0, 9, 0, 0, 2, 0, 1, 1, 0);
    assert(t26 * s11 == (162) * mn(p, 1, 2, 3, 2, 3, 1, 0));
    assert(t26 * q == (54) * mn(p, 3, 2, 1, 2, 3, 1, 0) + (108) * mn(p, 2, 3, 1, 3, 2, 1, 0) + (18) * mn(p, 2, 3, 1, 2, 4, 0, 0) + (-54) * mn(p, 2, 3, 1, 2, 2, 2, 1) + (108) * mn(p, 2, 2, 2, 3, 3, 0, 0) + (-108) * mn(p, 2, 2, 2, 2, 3, 1, 1) + (18) * mn(p, 1, 4, 1, 3, 3, 0, 0) + (54) * mn(p, 1, 3, 2, 4, 2, 0, 0) + (-108) * mn(p, 1, 3, 2, 3, 2, 1, 1) + (162) * mn(p, 1, 3, 2, 2, 2, 2, 0) + (-54) * mn(p, 1, 2, 3, 3, 3, 0, 1) + (162) * mn(p, 1, 2, 3, 2, 3, 1, 0));
    lemma_tm(p, -90, 1, 2, 1, 2, 0, 2, 1, 3, 2, 0, 0, 0, 1, 1, 0);
    assert(t27 * s0 == (-270) * mn(p, 3, 2, 1, 2, 1, 3, 1));
    lemma_tm(p, -90, 1, 2, 1, 2, 0, 2, 1, 6, 1, 1, 0, 1, 0, 1, 0);
    assert(t27 * s1 == (-540) * mn(p, 2, 3, 1, 3, 0, 3, 1));
    lemma_tm(p, -90, 1, 2, 1, 2, 0, 2, 1, 1, 1, 1, 0, 0, 2, 0, 0);
    assert(t27 * s2 == (-90) * mn(p, 2, 3, 1, 2, 2, 2, 1));
    lemma_tm(p, -90, 1, 2, 1, 2, 0, 2, 1, -3, 1, 1, 0, 0, 0, 2, 1);
    assert(t27 * s3 == (270) * mn(p, 2, 3, 1, 2, 0, 4, 2));
    lemma_tm(p, -90, 1, 2, 1, 2, 0, 2, 1, 6, 1, 0, 1, 1, 1, 0, 0);
    assert(t27 * s4 == (-540) * mn(p, 2, 2, 2, 3, 1, 2, 1));
    lemma_tm(p, -90, 1, 2, 1, 2, 0, 2, 1, -6, 1, 0, 1, 0, 1, 1, 1);
    assert(t27 * s5 == (540) * mn(p, 2, 2, 2, 2, 1, 3, 2));
    lemma_tm(p, -90, 1, 2, 1, 2, 0, 2, 1, 1, 0, 2, 0, 1, 1, 0, 0);
    assert(t27 * s6 == (-90) * mn(p, 1, 4, 1, 3, 1, 2, 1));
    lemma_tm(p, -90, 1, 2, 1, 2, 0, 2, 1, 3, 0, 1, 1, 2, 0, 0, 0);
    assert(t27 * s7 == (-270) * mn(p, 1, 3, 2, 4, 0, 2, 1));
    lemma_tm(p, -90, 1, 2, 1, 2, 0, 2, 1, -6, 0, 1, 1, 1, 0, 1, 1);
    assert(t27 * s8 == (540) * mn(p, 1, 3, 2, 3, 0, 3, 2));
    lemma_tm(p, -90, 1, 2, 1, 2, 0, 2, 1, 9, 0, 1, 1, 0, 0, 2, 0);
    assert(t27 * s9 == (-810) * mn(p, 1, 3, 2, 2, 0, 4, 1));
    lemma_tm(p, -90, 1, 2, 1, 2, 0, 2, 1, -3, 0, 0, 2, 1, 1, 0, 1);
    assert(t27 * s10 == (270) * mn(p, 1, 2, 3, 3, 1, 2, 2));
    lemma_tm(p, -90, 1, 2, 1, 2, 0, 2, 1, 9, 0, 0, 2, 0, 1, 1, 0);
    assert(t27 * s11 == (-810) * mn(p, 1, 2, 3, 2, 1, 3, 1));
    assert(t27 * q == (-270) * mn(p, 3, 2, 1, 2, 1, 3, 1) + (-540) * mn(p, 2, 3, 1, 3, 0, 3, 1) + (-90) * mn(p, 2, 3, 1, 2, 2, 2, 1) + (270) * mn(p, 2, 3, 1, 2, 0, 4, 2) + (-540) * mn(p, 2, 2, 2, 3, 1, 2, 1) + (540) * mn(p, 2, 2, 2, 2, 1, 3, 2) + (-90) * mn(p, 1, 4, 1, 3, 1, 2, 1) + (-270) * mn(p, 1, 3, 2, 4, 0, 2, 1) + (540) * mn(p, 1, 3, 2, 3, 0, 3, 2) + (-810) * mn(p, 1, 3, 2, 2, 0, 4, 1) + (270) * mn(p, 1, 2, 3, 3, 1, 2, 2) + (-810) * mn(p, 1, 2, 3, 2, 1, 3, 1));
    lemma_tm(p, -24, 1, 2, 1, 1, 2, 1, 1, 3, 2, 0, 0, 0, 1, 1, 0);
    assert(t28 * s0 == (-72) * mn(p, 3, 2, 1, 1, 3, 2, 1));
    lemma_tm(p, -24, 1, 2, 1, 1, 2, 1, 1, 6, 1, 1, 0, 1, 0, 1, 0);
    assert(t28 * s1 == (-144) * mn(p, 2, 3, 1, 2, 2, 2, 1));
    lemma_tm(p, -24, 1, 2, 1, 1, 2, 1, 1, 1, 1, 1, 0, 0, 2, 0, 0);
    assert(t28 * s2 == (-24) * mn(p, 2, 3, 1, 1, 4, 1, 1));
    lemma_tm(p, -24, 1, 2, 1, 1, 2, 1, 1, -3, 1, 1, 0, 0, 0, 2, 1);
    assert(t28 * s3 == (72) * mn(p, 2, 3, 1, 1, 2, 3, 2));
    lemma_tm(p, -24, 1, 2, 1, 1, 2, 1, 1, 6, 1, 0, 1, 1, 1, 0, 0);
    assert(t28 * s4 == (-144) * mn(p, 2, 2, 2, 2, 3, 1, 1));
    lemma_tm(p, -24, 1, 2, 1, 1, 2, 1, 1, -6, 1, 0, 1, 0, 1, 1, 1);
    assert(t28 * s5 == (144) * mn(p, 2, 2, 2, 1, 3, 2, 2));
    lemma_tm(p, -24, 1, 2, 1, 1, 2, 1, 1, 1, 0, 2, 0, 1, 1, 0, 0);
    assert(t28 * s6 == (-24) * mn(p, 1, 4, 1, 2, 3, 1, 1));
    lemma_tm(p, -24, 1, 2, 1, 1, 2, 1, 1, 3, 0, 1, 1, 2, 0, 0, 0);
    assert(t28 * s7 == (-72) * mn(p, 1, 3, 2, 3, 2, 1, 1));
    lemma_tm(p, -24, 1, 2, 1, 1, 2, 1, 1, -6, 0, 1, 1, 1, 0, 1, 1);
    assert(t28 * s8 == (144) * mn(p, 1, 3, 2, 2, 2, 2, 2));
    lemma_tm(p, -24, 1, 2, 1, 1, 2, 1, 1, 9, 0, 1, 1, 0, 0, 2, 0);
    assert(t28 * s9 == (-216) * mn(p, 1, 3, 2, 1, 2, 3, 1));
    lemma_tm(p, -24, 1, 2, 1, 1, 2, 1, 1, -3, 0, 0, 2, 1, 1, 0, 1);
    assert(t28 * s10 == (72) * mn(p, 1, 2, 3, 2, 3, 1, 2));
    lemma_tm(p, -24, 1, 2, 1, 1, 2, 1, 1, 9, 0, 0, 2, 0, 1, 1, 0);
    assert(t28 * s11 == (-216) * mn(p, 1, 2, 3, 1, 3, 2, 1));
    assert(t28 * q == (-72) * mn(p, 3, 2, 1, 1, 3, 2, 1) + (-144) * mn(p, 2, 3, 1, 2, 2, 2, 1) + (-24) * mn(p, 2, 3, 1, 1, 4, 1, 1) + (72) * mn(p, 2, 3, 1, 1, 2, 3, 2) + (-144) * mn(p, 2, 2, 2, 2, 3, 1, 1) + (144) * mn(p, 2, 2, 2, 1, 3, 2, 2) + (-24) * mn(p, 1, 4, 1, 2, 3, 1, 1) + (-72) * mn(p, 1, 3, 2, 3, 2, 1, 1) + (144) * mn(p, 1, 3, 2, 2, 2, 2, 2) + (-216) * mn(p, 1, 3, 2, 1, 2, 3, 1) + (72) * mn(p, 1, 2, 3, 2, 3, 1, 2) + (-216) * mn(p, 1, 2, 3, 1, 3, 2, 1));
    lemma_tm(p, 36, 1, 2, 1, 1, 0, 3, 2, 3, 2, 0, 0, 0, 1, 1, 0);
    assert(t29 * s0 == (108) * mn(p, 3, 2, 1, 1, 1, 4, 2));
    lemma_tm(p, 36, 1, 2, 1, 1, 0, 3, 2, 6, 1, 1, 0, 1, 0, 1, 0);
    assert(t29 * s1 == (216) * mn(p, 2, 3, 1, 2, 0, 4, 2));
    lemma_tm(p, 36, 1, 2, 1, 1, 0, 3, 2, 1, 1, 1, 0, 0, 2, 0, 0);
    assert(t29 * s2 == (36) * mn(p, 2, 3, 1, 1, 2, 3, 2));
    lemma_tm(p, 36, 1, 2, 1, 1, 0, 3, 2, -3, 1, 1, 0, 0, 0, 2, 1);
    assert(t29 * s3 == (-108) * mn(p, 2, 3, 1, 1, 0, 5, 3));
    lemma_tm(p, 36, 1, 2, 1, 1, 0, 3, 2, 6, 1, 0, 1, 1, 1, 0, 0);
    assert(t29 * s4 == (216) * mn(p, 2, 2, 2, 2, 1, 3, 2));
    lemma_tm(p, 36, 1, 2, 1, 1, 0, 3, 2, -6, 1, 0, 1, 0, 1, 1, 1);
    assert(t29 * s5 == (-216) * mn(p, 2, 2, 2, 1, 1, 4, 3));
    lemma_tm(p, 36, 1, 2, 1, 1, 0, 3, 2, 1, 0, 2, 0, 1, 1, 0, 0);
    assert(t29 * s6 == (36) * mn(p, 1, 4, 1, 2, 1, 3, 2));
    lemma_tm(p, 36, 1, 2, 1, 1, 0, 3, 2, 3, 0, 1, 1, 2, 0, 0, 0);
    assert(t29 * s7 == (108) * mn(p, 1, 3, 2, 3, 0, 3, 2));
    lemma_tm(p, 36, 1, 2, 1, 1, 0, 3, 2, -6, 0, 1, 1, 1, 0, 1, 1);
    assert(t29 * s8 == (-216) * mn(p, 1, 3, 2, 2, 0, 4, 3));
    lemma_tm(p, 36, 1, 2, 1, 1, 0, 3, 2, 9, 0, 1, 1, 0, 0, 2, 0);
    assert(t29 * s9 == (324) * mn(p, 1, 3, 2, 1, 0, 5, 2));
    lemma_tm(p, 36, 1, 2, 1, 1, 0, 3, 2, -3, 0, 0, 2, 1, 1, 0, 1);
    assert(t29 * s10 == (-108) * mn(p, 1, 2, 3, 2, 1, 3, 3));
    lemma_tm(p, 36, 1, 2, 1, 1, 0, 3, 2, 9, 0, 0, 2, 0, 1, 1, 0);
    assert(t29 * s11 == (324) * mn(p, 1, 2, 3, 1, 1, 4, 2));
    assert(t29 * q == (108) * mn(p, 3, 2, 1, 1, 1, 4, 2) + (216) * mn(p, 2, 3, 1, 2, 0, 4, 2) + (36) * mn(p, 2, 3, 1, 1, 2, 3, 2) + (-108) * mn(p, 2, 3, 1, 1, 0, 5, 3) + (216) * mn(p, 2, 2, 2, 2, 1, 3, 2) + (-216) * mn(p, 2, 2, 2, 1, 1, 4, 3) + (36) * mn(p, 1, 4, 1, 2, 1, 3, 2) + (108) * mn(p, 1, 3, 2, 3, 0, 3, 2) + (-216) * mn(p, 1, 3, 2, 2, 0, 4, 3) + (324) * mn(p, 1, 3, 2, 1, 0, 5, 2) + (-108) * mn(p, 1, 2, 3, 2, 1, 3, 3) + (324) * mn(p, 1, 2, 3, 1, 1, 4, 2));
    lemma_tm(p, 108, 1, 2, 1, 1, 0, 3, 0, 3, 2, 0, 0, 0, 1, 1, 0);
    assert(t30 * s0 == (324) * mn(p, 3, 2, 1, 1, 1, 4, 0));
    lemma_tm(p, 108, 1, 2, 1, 1, 0, 3, 0, 6, 1, 1, 0, 1, 0, 1, 0);
    assert(t30 * s1 == (648) * mn(p, 2, 3, 1, 2, 0, 4, 0));
    lemma_tm(p, 108, 1, 2, 1, 1, 0, 3, 0, 1, 1, 1, 0, 0, 2, 0, 0);
    assert(t30 * s2 == (108) * mn(p, 2, 3, 1, 1, 2, 3, 0));
    lemma_tm(p, 108, 1, 2, 1, 1, 0, 3, 0, -3, 1, 1, 0, 0, 0, 2, 1);
    assert(t30 * s3 == (-324) * mn(p, 2, 3, 1, 1, 0, 5, 1));
    lemma_tm(p, 108, 1, 2, 1, 1, 0, 3, 0, 6, 1, 0, 1, 1, 1, 0, 0);
    assert(t30 * s4 == (648) * mn(p, 2, 2, 2, 2, 1, 3, 0));
    lemma_tm(p, 108, 1, 2, 1, 1, 0, 3, 0, -6, 1, 0, 1, 0, 1, 1, 1);
    assert(t30 * s5 == (-648) * mn(p, 2, 2, 2, 1, 1, 4, 1));
    lemma_tm(p, 108, 1, 2, 1, 1, 0, 3, 0, 1, 0, 2, 0, 1, 1, 0, 0);
    assert(t30 * s6 == (108) * mn(p, 1, 4, 1, 2, 1, 3, 0));
    lemma_tm(p, 108, 1, 2, 1, 1, 0, 3, 0, 3, 0, 1, 1, 2, 0, 0, 0);
    assert(t30 * s7 == (324) * mn(p, 1, 3, 2, 3, 0, 3, 0));
    lemma_tm(p, 108, 1, 2, 1, 1, 0, 3, 0, -6, 0, 1, 1, 1, 0, 1, 1);
    assert(t30 * s8 == (-648) * mn(p, 1, 3, 2, 2, 0, 4, 1));
    lemma_tm(p, 108, 1, 2, 1, 1, 0, 3, 0, 9, 0, 1, 1, 0, 0, 2, 0);
    assert(t30 * s9 == (972) * mn(p, 1, 3, 2, 1, 0, 5, 0));
    lemma_tm(p, 108, 1, 2, 1, 1, 0, 3, 0, -3, 0, 0, 2, 1, 1, 0, 1);
    assert(t30 * s10 == (-324) * mn(p, 1, 2, 3, 2, 1, 3, 1));
    lemma_tm(p, 108, 1, 2, 1, 1, 0, 3, 0, 9, 0, 0, 2, 0, 1, 1, 0);
    assert(t30 * s11 == (972) * mn(p, 1, 2, 3, 1, 1, 4, 0));
    assert(t30 * q == (324) * mn(p, 3, 2, 1, 1, 1, 4, 0) + (648) * mn(p, 2, 3, 1, 2, 0, 4, 0) + (108) * mn(p, 2, 3, 1, 1, 2, 3, 0) + (-324) * mn(p, 2, 3, 1, 1, 0, 5, 1) + (648) * mn(p, 2, 2, 2, 2, 1, 3, 0) + (-648) * mn(p, 2, 2, 2, 1, 1, 4, 1) + (108) * mn(p, 1, 4, 1, 2, 1, 3, 0) + (324) * mn(p, 1, 3, 2, 3, 0, 3, 0) + (-648) * mn(p, 1, 3, 2, 2, 0, 4, 1) + (972) * mn(p, 1, 3, 2, 1, 0, 5, 0) + (-324) * mn(p, 1, 2, 3, 2, 1, 3, 1) + (972) * mn(p, 1, 2, 3, 1, 1, 4, 0));
    lemma_tm(p, 18, 1, 2, 1, 0, 2, 2, 0, 3, 2, 0, 0, 0, 1, 1, 0);
    assert(t31 * s0 == (54) * mn(p, 3, 2, 1, 0, 3, 3, 0));
    lemma_tm(p, 18, 1, 2, 1, 0, 2, 2, 0, 6, 1, 1, 0, 1, 0, 1, 0);
    assert(t31 * s1 == (108) * mn(p, 2, 3, 1, 1, 2, 3, 0));
    lemma_tm(p, 18, 1, 2, 1, 0, 2, 2, 0, 1, 1, 1, 0, 0, 2, 0, 0);
    assert(t31 * s2 == (18) * mn(p, 2, 3, 1, 0, 4, 2, 0));
    lemma_tm(p, 18, 1, 2, 1, 0, 2, 2, 0, -3, 1, 1, 0, 0, 0, 2, 1);
    assert(t31 * s3 == (-54) * mn(p, 2, 3, 1, 0, 2, 4, 1));
    lemma_tm(p, 18, 1, 2, 1, 0, 2, 2, 0, 6, 1, 0, 1, 1, 1, 0, 0);
    assert(t31 * s4 == (108) * mn(p, 2, 2, 2, 1, 3, 2, 0));
    lemma_tm(p, 18, 1, 2, 1, 0, 2, 2, 0, -6, 1, 0, 1, 0, 1, 1, 1);
    assert(t31 * s5 == (-108) * mn(p, 2, 2, 2, 0, 3, 3, 1));
    lemma_tm(p, 18, 1, 2, 1, 0, 2, 2, 0, 1, 0, 2, 0, 1, 1, 0, 0);
    assert(t31 * s6 == (18) * mn(p, 1, 4, 1, 1, 3, 2, 0));
    lemma_tm(p, 18, 1, 2, 1, 0, 2, 2, 0, 3, 0, 1, 1, 2, 0, 0, 0);
    assert(t31 * s7 == (54) * mn(p, 1, 3, 2, 2, 2, 2, 0));
    lemma_tm(p, 18, 1, 2, 1, 0, 2, 2, 0, -6, 0, 1, 1, 1, 0, 1, 1);
    assert(t31 * s8 == (-108) * mn(p, 1, 3, 2, 1, 2, 3, 1));
    lemma_tm(p, 18, 1, 2, 1, 0, 2, 2, 0, 9, 0, 1, 1, 0, 0, 2, 0);
    assert(t31 * s9 == (162) * mn(p, 1, 3, 2, 0, 2, 4, 0));
    lemma_tm(p, 18, 1, 2, 1, 0, 2, 2, 0, -3, 0, 0, 2, 1, 1, 0, 1);
    assert(t31 * s10 == (-54) * mn(p, 1, 2, 3, 1, 3, 2, 1));
    lemma_tm(p, 18, 1, 2, 1, 0, 2, 2, 0, 9, 0, 0, 2, 0, 1, 1, 0);
    assert(t31 * s11 == (162) * mn(p, 1, 2, 3, 0, 3, 3, 0));
    assert(t31 * q == (54) * mn(p, 3, 2, 1, 0, 3, 3, 0) + (108) * mn(p, 2, 3, 1, 1, 2, 3, 0) + (18) * mn(p, 2, 3, 1, 0, 4, 2, 0) + (-54) * mn(p, 2, 3, 1, 0, 2, 4, 1) + (108) * mn(p, 2, 2, 2, 1, 3, 2, 0) + (-108) * mn(p, 2, 2, 2, 0, 3, 3, 1) + (18) * mn(p, 1, 4, 1, 1, 3, 2, 0) + (54) * mn(p, 1, 3, 2, 2, 2, 2, 0) + (-108) * mn(p, 1, 3, 2, 1, 2, 3, 1) + (162) * mn(p, 1, 3, 2, 0, 2, 4, 0) + (-54) * mn(p, 1, 2, 3, 1, 3, 2, 1) + (162) * mn(p, 1, 2, 3, 0, 3, 3, 0));
    assert(pp31 * q == ((((((((27) * mn(p, 6, 0, 0, 0, 3, 3, 0) + (162) * mn(p, 5, 1, 0, 1, 2, 3, 0)) + ((27) * mn(p, 5, 1, 0, 0, 4, 2, 0) + (-81) * mn(p, 5, 1, 0, 0, 2, 4, 1))) + (((162) * mn(p, 5, 0, 1, 1, 3, 2, 0) + (-162) * mn(p, 5, 0, 1, 0, 3, 3, 1)) + ((324) * mn(p, 4, 2, 0, 2, 1, 3, 0) + ((135) * mn(p, 4, 2, 0, 1, 3, 2, 0) + (-324) * mn(p, 4, 2, 0, 1, 1, 4, 1))))) + ((((9) * mn(p, 4, 2, 0, 0, 5, 1, 0) + (-54) * mn(p, 4, 2, 0, 0, 3, 3, 1)) + ((81) * mn(p, 4, 2, 0, 0, 1, 5, 2) + ((729) * mn(p, 4, 1, 1, 2, 2, 2, 0) + (108) * mn(p, 4, 1, 1, 1, 4, 1, 0)))) + (((-1134) * mn(p, 4, 1, 1, 1, 2, 3, 1) + (-108) * mn(p, 4, 1, 1, 0, 4, 2, 1)) + ((324) * mn(p, 4, 1, 1, 0, 2, 4, 2) + ((243) * mn(p, 4, 1, 1, 0, 2, 4, 0) + (324) * mn(p, 4, 0, 2, 2, 3, 1, 0)))))) + (((((-729) * mn(p, 4, 0, 2, 1, 3, 2, 1) + (324) * mn(p, 4, 0, 2, 0, 3, 3, 2)) + ((243) * mn(p, 4, 0, 2, 0, 3, 3, 0) + (216) * mn(p, 3, 3, 0, 3, 0, 3, 0))) + (((216) * mn(p, 3, 3, 0, 2, 2, 2, 0) + (-324) * mn(p, 3, 3, 0, 2, 0, 4, 1)) + ((36) * mn(p, 3, 3, 0, 1, 4, 1, 0) + ((-162) * mn(p, 3, 3, 0, 1, 2, 3, 1) + (162) * mn(p, 3, 3, 0, 1, 0, 5, 2))))) + ((((1) * mn(p, 3, 3, 0, 0, 6, 0, 0) + (-9) * mn(p, 3, 3, 0, 0, 4, 2, 1)) + ((27) * mn(p, 3, 3, 0, 0, 2, 4, 2) + ((-27) * mn(p, 3, 3, 0, 0, 0, 6, 3) + (972) * mn(p, 3, 2, 1, 3, 1, 2, 0)))) + (((378) * mn(p, 3, 2, 1, 2, 3, 1, 0) + (-2106) * mn(p, 3, 2, 1, 2, 1, 3, 1)) + ((18) * mn(p, 3, 2, 1, 1, 5, 0, 0) + ((-540) * mn(p, 3, 2, 1, 1, 3, 2, 1) + (1134) * mn(p, 3, 2, 1, 1, 1, 4, 2))))))) + ((((((972) * mn(p, 3, 2, 1, 1, 1, 4, 0) + (-18) * mn(p, 3, 2, 1, 0, 5, 1, 1)) + ((108) * mn(p, 3, 2, 1, 0, 3, 3, 2) + (162) * mn(p, 3, 2, 1, 0, 3, 3, 0))) + (((-162) * mn(p, 3, 2, 1, 0, 1, 5, 3) + (-324) * mn(p, 3, 2, 1, 0, 1, 5, 1)) + ((864) * mn(p, 3, 1, 2, 3, 2, 1, 0) + ((108) * mn(p, 3, 1, 2, 2, 4, 0, 0) + (-2484) * mn(p, 3, 1, 2, 2, 2, 2, 1))))) + ((((-252) * mn(p, 3, 1, 2, 1, 4, 1, 1) + (1836) * mn(p, 3, 1, 2, 1, 2, 3, 2)) + ((1296) * mn(p, 3, 1, 2, 1, 2, 3, 0) + ((108) * mn(p, 3, 1, 2, 0, 4, 2, 2) + (108) * mn(p, 3, 1, 2, 0, 4, 2, 0)))) + (((-324) * mn(p, 3, 1, 2, 0, 2, 4, 3) + (-972) * mn(p, 3, 1, 2, 0, 2, 4, 1)) + ((216) * mn(p, 3, 0, 3, 3, 3, 0, 0) + ((-864) * mn(p, 3, 0, 3, 2, 3, 1, 1) + (864) * mn(p, 3, 0, 3, 1, 3, 2, 2)))))) + (((((648) * mn(p, 3, 0, 3, 1, 3, 2, 0) + (-216) * mn(p, 3, 0, 3, 0, 3, 3, 3)) + ((-648) * mn(p, 3, 0, 3, 0, 3, 3, 1) + ((108) * mn(p, 2, 4, 0, 3, 1, 2, 0) + (42) * mn(p, 2, 4, 0, 2, 3, 1, 0)))) + (((-108) * mn(p, 2, 4, 0, 2, 1, 3, 1) + (3) * mn(p, 2, 4, 0, 1, 5, 0, 0)) + ((-18) * mn(p, 2, 4, 0, 1, 3, 2, 1) + ((27) * mn(p, 2, 4, 0, 1, 1, 4, 2) + (324) * mn(p, 2, 3, 1, 4, 0, 2, 0))))) + ((((360) * mn(p, 2, 3, 1, 3, 2, 1, 0) + (-972) * mn(p, 2, 3, 1, 3, 0, 3, 1)) + ((45) * mn(p, 2, 3, 1, 2, 4, 0, 0) + ((-666) * mn(p, 2, 3, 1, 2, 2, 2, 1) + (729) * mn(p, 2, 3, 1, 2, 0, 4, 2)))) + (((972) * mn(p, 2, 3, 1, 2, 0, 4, 0) + (-54) * mn(p, 2, 3, 1, 1, 4, 1, 1)) + ((216) * mn(p, 2, 3, 1, 1, 2, 3, 2) + ((432) * mn(p, 2, 3, 1, 1, 2, 3, 0) + (-162) * mn(p, 2, 3, 1, 1, 0, 5, 3)))))))) + (((((((-648) * mn(p, 2, 3, 1, 1, 0, 5, 1) + (27) * mn(p, 2, 3, 1, 0, 4, 2, 0)) + ((-108) * mn(p, 2, 3, 1, 0, 2, 4, 1) + (81) * mn(p, 2, 3, 1, 0, 0, 6, 2))) + (((486) * mn(p, 2, 2, 2, 4, 1, 1, 0) + (180) * mn(p, 2, 2, 2, 3, 3, 0, 0)) + ((-1836) * mn(p, 2, 2, 2, 3, 1, 2, 1) + ((-504) * mn(p, 2, 2, 2, 2, 3, 1, 1) + (1836) * mn(p, 2, 2, 2, 2, 1, 3, 2))))) + ((((1944) * mn(p, 2, 2, 2, 2, 1, 3, 0) + (-3) * mn(p, 2, 2, 2, 1, 5, 0, 1)) + ((270) * mn(p, 2, 2, 2, 1, 3, 2, 2) + ((432) * mn(p, 2, 2, 2, 1, 3, 2, 0) + (-459) * mn(p, 2, 2, 2, 1, 1, 4, 3)))) + (((-2592) * mn(p, 2, 2, 2, 1, 1, 4, 1) + (9) * mn(p, 2, 2, 2, 0, 5, 1, 0)) + ((-270) * mn(p, 2, 2, 2, 0, 3, 3, 1) + ((405) * mn(p, 2, 2, 2, 0, 1, 5, 2) + (486) * mn(p, 2, 2, 2, 0, 1, 5, 0)))))) + (((((108) * mn(p, 2, 1, 3, 4, 2, 0, 0) + (-756) * mn(p, 2, 1, 3, 3, 2, 1, 1)) + ((-36) * mn(p, 2, 1, 3, 2, 4, 0, 1) + (1080) * mn(p, 2, 1, 3, 2, 2, 2, 2))) + (((1296) * mn(p, 2, 1, 3, 2, 2, 2, 0) + (36) * mn(p, 2, 1, 3, 1, 4, 1, 2)) + ((108) * mn(p, 2, 1, 3, 1, 4, 1, 0) + ((-324) * mn(p, 2, 1, 3, 1, 2, 3, 3) + (-2592) * mn(p, 2, 1, 3, 1, 2, 3, 1))))) + ((((-108) * mn(p, 2, 1, 3, 0, 4, 2, 1) + (648) * mn(p, 2, 1, 3, 0, 2, 4, 2)) + ((972) * mn(p, 2, 1, 3, 0, 2, 4, 0) + ((-108) * mn(p, 2, 0, 4, 3, 3, 0, 1) + (270) * mn(p, 2, 0, 4, 2, 3, 1, 2)))) + (((324) * mn(p, 2, 0, 4, 2, 3, 1, 0) + (-108) * mn(p, 2, 0, 4, 1, 3, 2, 3)) + ((-972) * mn(p, 2, 0, 4, 1, 3, 2, 1) + ((324) * mn(p, 2, 0, 4, 0, 3, 3, 2) + (486) * mn(p, 2, 0, 4, 0, 3, 3, 0))))))) + ((((((12) * mn(p, 1, 5, 0, 3, 2, 1, 0) + (2) * mn(p, 1, 5, 0, 2, 4, 0, 0)) + ((-6) * mn(p, 1, 5, 0, 2, 2, 2, 1) + (72) * mn(p, 1, 4, 1, 4, 1, 1, 0))) + (((24) * mn(p, 1, 4, 1, 3, 3, 0, 0) + (-180) * mn(p, 1, 4, 1, 3, 1, 2, 1)) + ((-36) * mn(p, 1, 4, 1, 2, 3, 1, 1) + ((72) * mn(p, 1, 4, 1, 2, 1, 3, 2) + (216) * mn(p, 1, 4, 1, 2, 1, 3, 0))))) + ((((36) * mn(p, 1, 4, 1, 1, 3, 2, 0) + (-54) * mn(p, 1, 4, 1, 1, 1, 4, 1)) + ((108) * mn(p, 1, 3, 2, 5, 0, 1, 0) + ((54) * mn(p, 1, 3, 2, 4, 2, 0, 0) + (-486) * mn(p, 1, 3, 2, 4, 0, 2, 1)))) + (((-216) * mn(p, 1, 3, 2, 3, 2, 1, 1) + (648) * mn(p, 1, 3, 2, 3, 0, 3, 2)) + ((648) * mn(p, 1, 3, 2, 3, 0, 3, 0) + ((-6) * mn(p, 1, 3, 2, 2, 4, 0, 1) + (162) * mn(p, 1, 3, 2, 2, 2, 2, 2)))))) + (((((324) * mn(p, 1, 3, 2, 2, 2, 2, 0) + (-216) * mn(p, 1, 3, 2, 2, 0, 4, 3)) + ((-1458) * mn(p, 1, 3, 2, 2, 0, 4, 1) + ((18) * mn(p, 1, 3, 2, 1, 4, 1, 0) + (-378) * mn(p, 1, 3, 2, 1, 2, 3, 1)))) + (((324) * mn(p, 1, 3, 2, 1, 0, 5, 2) + (972) * mn(p, 1, 3, 2, 1, 0, 5, 0)) + ((162) * mn(p, 1, 3, 2, 0, 2, 4, 0) + ((-108) * mn(p, 1, 2, 3, 4, 1, 1, 1) + (-54) * mn(p, 1, 2, 3, 3, 3, 0, 1))))) + ((((270) * mn(p, 1, 2, 3, 3, 1, 2, 2) + (324) * mn(p, 1, 2, 3, 3, 1, 2, 0)) + ((72) * mn(p, 1, 2, 3, 2, 3, 1, 2) + ((162) * mn(p, 1, 2, 3, 2, 3, 1, 0) + (-108) * mn(p, 1, 2, 3, 2, 1, 3, 3)))) + (((-1134) * mn(p, 1, 2, 3, 2, 1, 3, 1) + (-270) * mn(p, 1, 2, 3, 1, 3, 2, 1)) + ((324) * mn(p, 1, 2, 3, 1, 1, 4, 2) + ((972) * mn(p, 1, 2, 3, 1, 1, 4, 0) + (162) * mn(p, 1, 2, 3, 0, 3, 3, 0))))))))));
    assert(pp31 == ((((((9) * mn(p, 4, 0, 0, 0, 2, 2, 0) + (36) * mn(p, 3, 1, 0, 1, 1, 2, 0)) + ((6) * mn(p, 3, 1, 0, 0, 3, 1, 0) + (-18) * mn(p, 3, 1, 0, 0, 1, 3, 1))) + (((36) * mn(p, 3, 0, 1, 1, 2, 1, 0) + (-36) * mn(p, 3, 0, 1, 0, 2, 2, 1)) + ((36) * mn(p, 2, 2, 0, 2, 0, 2, 0) + (18) * mn(p, 2, 2, 0, 1, 2, 1, 0)))) + ((((-36) * mn(p, 2, 2, 0, 1, 0, 3, 1) + (1) * mn(p, 2, 2, 0, 0, 4, 0, 0)) + ((-6) * mn(p, 2, 2, 0, 0, 2, 2, 1) + (9) * mn(p, 2, 2, 0, 0, 0, 4, 2))) + (((90) * mn(p, 2, 1, 1, 2, 1, 1, 0) + (12) * mn(p, 2, 1, 1, 1, 3, 0, 0)) + ((-144) * mn(p, 2, 1, 1, 1, 1, 2, 1) + (-12) * mn(p, 2, 1, 1, 0, 3, 1, 1))))) + (((((36) * mn(p, 2, 1, 1, 0, 1, 3, 2) + (54) * mn(p, 2, 1, 1, 0, 1, 3, 0)) + ((36) * mn(p, 2, 0, 2, 2, 2, 0, 0) + (-90) * mn(p, 2, 0, 2, 1, 2, 1, 1))) + (((36) * mn(p, 2, 0, 2, 0, 2, 2, 2) + (54) * mn(p, 2, 0, 2, 0, 2, 2, 0)) + ((12) * mn(p, 1, 3, 0, 2, 1, 1, 0) + (2) * mn(p, 1, 3, 0, 1, 3, 0, 0)))) + ((((-6) * mn(p, 1, 3, 0, 1, 1, 2, 1) + (36) * mn(p, 1, 2, 1, 3, 0, 1, 0)) + ((18) * mn(p, 1, 2, 1, 2, 2, 0, 0) + (-90) * mn(p, 1, 2, 1, 2, 0, 2, 1))) + (((-24) * mn(p, 1, 2, 1, 1, 2, 1, 1) + (36) * mn(p, 1, 2, 1, 1, 0, 3, 2)) + ((108) * mn(p, 1, 2, 1, 1, 0, 3, 0) + (18) * mn(p, 1, 2, 1, 0, 2, 2, 0)))))));
    assert(q == ((((3) * mn(p, 2, 0, 0, 0, 1, 1, 0) + ((6) * mn(p, 1, 1, 0, 1, 0, 1, 0) + (1) * mn(p, 1, 1, 0, 0, 2, 0, 0))) + ((-3) * mn(p, 1, 1, 0, 0, 0, 2, 1) + ((6) * mn(p, 1, 0, 1, 1, 1, 0, 0) + (-6) * mn(p, 1, 0, 1, 0, 1, 1, 1)))) + (((1) * mn(p, 0, 2, 0, 1, 1, 0, 0) + ((3) * mn(p, 0, 1, 1, 2, 0, 0, 0) + (-6) * mn(p, 0, 1, 1, 1, 0, 1, 1))) + ((9) * mn(p, 0, 1, 1, 0, 0, 2, 0) + ((-3) * mn(p, 0, 0, 2, 1, 1, 0, 1) + (9) * mn(p, 0, 0, 2, 0, 1, 1, 0))))));
}

#[verifier::rlimit(100)]
proof fn acb_prod7_c1(p: Pt)
    ensures
        (((((((-54) * mn(p, 1, 2, 1, 0, 0, 4, 1) + (36) * mn(p, 1, 1, 2, 3, 1, 0, 0)) + ((-144) * mn(p, 1, 1, 2, 2, 1, 1, 1) + (-6) * mn(p, 1, 1, 2, 1, 3, 0, 1))) + (((90) * mn(p, 1, 1, 2, 1, 1, 2, 2) + (216) * mn(p, 1, 1, 2, 1, 1, 2, 0)) + ((18) * mn(p, 1, 1, 2, 0, 3, 1, 0) + (-162) * mn(p, 1, 1, 2, 0, 1, 3, 1)))) + ((((-36) * mn(p, 1, 0, 3, 2, 2, 0, 1) + (36) * mn(p, 1, 0, 3, 1, 2, 1, 2)) + ((108) * mn(p, 1, 0, 3, 1, 2, 1, 0) + (-108) * mn(p, 1, 0, 3, 0, 2, 2, 1))) + (((1) * mn(p, 0, 4, 0, 2, 2, 0, 0) + (6) * mn(p, 0, 3, 1, 3, 1, 0, 0)) + ((-12) * mn(p, 0, 3, 1, 2, 1, 1, 1) + (18) * mn(p, 0, 3, 1, 1, 1, 2, 0))))) + (((((9) * mn(p, 0, 2, 2, 4, 0, 0, 0) + (-36) * mn(p, 0, 2, 2, 3, 0, 1, 1)) + ((-6) * mn(p, 0, 2, 2, 2, 2, 0, 1) + (36) * mn(p, 0, 2, 2, 2, 0, 2, 2))) + (((54) * mn(p, 0, 2, 2, 2, 0, 2, 0) + (18) * mn(p, 0, 2, 2, 1, 2, 1, 0)) + ((-108) * mn(p, 0, 2, 2, 1, 0, 3, 1) + (81) * mn(p, 0, 2, 2, 0, 0, 4, 0)))) + ((((-18) * mn(p, 0, 1, 3, 3, 1, 0, 1) + (36) * mn(p, 0, 1, 3, 2, 1, 1, 2)) + ((54) * mn(p, 0, 1, 3, 2, 1, 1, 0) + (-162) * mn(p, 0, 1, 3, 1, 1, 2, 1))) + (((162) * mn(p, 0, 1, 3, 0, 1, 3, 0) + (9) * mn(p, 0, 0, 4, 2, 2, 0, 2)) + ((-54) * mn(p, 0, 0, 4, 1, 2, 1, 1) + (81) * mn(p, 0, 0, 4, 0, 2, 2, 0))))))) * (((((3) * mn(p, 2, 0, 0, 0, 1, 1, 0) + ((6) * mn(p, 1, 1, 0, 1, 0, 1, 0) + (1) * mn(p, 1, 1, 0, 0, 2, 0, 0))) + ((-3) * mn(p, 1, 1, 0, 0, 0, 2, 1) + ((6) * mn(p, 1, 0, 1, 1, 1, 0, 0) + (-6) * mn(p, 1, 0, 1, 0, 1, 1, 1)))) + (((1) * mn(p, 0, 2, 0, 1, 1, 0, 0) + ((3) * mn(p, 0, 1, 1, 2, 0, 0, 0) + (-6) * mn(p, 0, 1, 1, 1, 0, 1, 1))) + ((9) * mn(p, 0, 1, 1, 0, 0, 2, 0) + ((-3) * mn(p, 0, 0, 2, 1, 1, 0, 1) + (9) * mn(p, 0, 0, 2, 0, 1, 1, 0)))))) == ((((((((-162) * mn(p, 3, 2, 1, 0, 1, 5, 1) + (108) * mn(p, 3, 1, 2, 3, 2, 1, 0)) + ((-432) * mn(p, 3, 1, 2, 2, 2, 2, 1) + ((-18) * mn(p, 3, 1, 2, 1, 4, 1, 1) + (270) * mn(p, 3, 1, 2, 1, 2, 3, 2)))) + (((648) * mn(p, 3, 1, 2, 1, 2, 3, 0) + (54) * mn(p, 3, 1, 2, 0, 4, 2, 0)) + ((-486) * mn(p, 3, 1, 2, 0, 2, 4, 1) + ((-108) * mn(p, 3, 0, 3, 2, 3, 1, 1) + (108) * mn(p, 3, 0, 3, 1, 3, 2, 2))))) + ((((324) * mn(p, 3, 0, 3, 1, 3, 2, 0) + (-324) * mn(p, 3, 0, 3, 0, 3, 3, 1)) + ((3) * mn(p, 2, 4, 0, 2, 3, 1, 0) + ((18) * mn(p, 2, 3, 1, 3, 2, 1, 0) + (-36) * mn(p, 2, 3, 1, 2, 2, 2, 1)))) + (((54) * mn(p, 2, 3, 1, 1, 2, 3, 0) + (-324) * mn(p, 2, 3, 1, 1, 0, 5, 1)) + ((-54) * mn(p, 2, 3, 1, 0, 2, 4, 1) + ((162) * mn(p, 2, 3, 1, 0, 0, 6, 2) + (243) * mn(p, 2, 2, 2, 4, 1, 1, 0)))))) + (((((36) * mn(p, 2, 2, 2, 3, 3, 0, 0) + (-1080) * mn(p, 2, 2, 2, 3, 1, 2, 1)) + ((-198) * mn(p, 2, 2, 2, 2, 3, 1, 1) + ((1080) * mn(p, 2, 2, 2, 2, 1, 3, 2) + (1458) * mn(p, 2, 2, 2, 2, 1, 3, 0)))) + (((-6) * mn(p, 2, 2, 2, 1, 5, 0, 1) + (108) * mn(p, 2, 2, 2, 1, 3, 2, 2)) + ((378) * mn(p, 2, 2, 2, 1, 3, 2, 0) + ((-270) * mn(p, 2, 2, 2, 1, 1, 4, 3) + (-2268) * mn(p, 2, 2, 2, 1, 1, 4, 1))))) + ((((18) * mn(p, 2, 2, 2, 0, 5, 1, 0) + (-216) * mn(p, 2, 2, 2, 0, 3, 3, 1)) + ((810) * mn(p, 2, 2, 2, 0, 1, 5, 2) + ((243) * mn(p, 2, 2, 2, 0, 1, 5, 0) + (216) * mn(p, 2, 1, 3, 4, 2, 0, 0)))) + (((-1350) * mn(p, 2, 1, 3, 3, 2, 1, 1) + (-72) * mn(p, 2, 1, 3, 2, 4, 0, 1)) + ((1836) * mn(p, 2, 1, 3, 2, 2, 2, 2) + ((2106) * mn(p, 2, 1, 3, 2, 2, 2, 0) + (72) * mn(p, 2, 1, 3, 1, 4, 1, 2))))))) + ((((((216) * mn(p, 2, 1, 3, 1, 4, 1, 0) + (-648) * mn(p, 2, 1, 3, 1, 2, 3, 3)) + ((-3726) * mn(p, 2, 1, 3, 1, 2, 3, 1) + ((-216) * mn(p, 2, 1, 3, 0, 4, 2, 1) + (1296) * mn(p, 2, 1, 3, 0, 2, 4, 2)))) + (((486) * mn(p, 2, 1, 3, 0, 2, 4, 0) + (-216) * mn(p, 2, 0, 4, 3, 3, 0, 1)) + ((459) * mn(p, 2, 0, 4, 2, 3, 1, 2) + ((648) * mn(p, 2, 0, 4, 2, 3, 1, 0) + (-216) * mn(p, 2, 0, 4, 1, 3, 2, 3))))) + ((((-1458) * mn(p, 2, 0, 4, 1, 3, 2, 1) + (648) * mn(p, 2, 0, 4, 0, 3, 3, 2)) + ((243) * mn(p, 2, 0, 4, 0, 3, 3, 0) + ((6) * mn(p, 1, 5, 0, 3, 2, 1, 0) + (1) * mn(p, 1, 5, 0, 2, 4, 0, 0)))) + (((-3) * mn(p, 1, 5, 0, 2, 2, 2, 1) + (36) * mn(p, 1, 4, 1, 4, 1, 1, 0)) + ((12) * mn(p, 1, 4, 1, 3, 3, 0, 0) + ((-90) * mn(p, 1, 4, 1, 3, 1, 2, 1) + (-18) * mn(p, 1, 4, 1, 2, 3, 1, 1)))))) + (((((36) * mn(p, 1, 4, 1, 2, 1, 3, 2) + (108) * mn(p, 1, 4, 1, 2, 1, 3, 0)) + ((18) * mn(p, 1, 4, 1, 1, 3, 2, 0) + ((-108) * mn(p, 1, 4, 1, 1, 1, 4, 1) + (54) * mn(p, 1, 3, 2, 5, 0, 1, 0)))) + (((81) * mn(p, 1, 3, 2, 4, 2, 0, 0) + (-243) * mn(p, 1, 3, 2, 4, 0, 2, 1)) + ((-324) * mn(p, 1, 3, 2, 3, 2, 1, 1) + ((324) * mn(p, 1, 3, 2, 3, 0, 3, 2) + (324) * mn(p, 1, 3, 2, 3, 0, 3, 0))))) + ((((-12) * mn(p, 1, 3, 2, 2, 4, 0, 1) + (216) * mn(p, 1, 3, 2, 2, 2, 2, 2)) + ((486) * mn(p, 1, 3, 2, 2, 2, 2, 0) + ((-108) * mn(p, 1, 3, 2, 2, 0, 4, 3) + (-972) * mn(p, 1, 3, 2, 2, 0, 4, 1)))) + (((36) * mn(p, 1, 3, 2, 1, 4, 1, 0) + ((-432) * mn(p, 1, 3, 2, 1, 2, 3, 1) + (648) * mn(p, 1, 3, 2, 1, 0, 5, 2))) + ((486) * mn(p, 1, 3, 2, 1, 0, 5, 0) + ((81) * mn(p, 1, 3, 2, 0, 2, 4, 0) + (-729) * mn(p, 1, 3, 2, 0, 0, 6, 1)))))))) + (((((((162) * mn(p, 1, 2, 3, 5, 1, 0, 0) + (-1026) * mn(p, 1, 2, 3, 4, 1, 1, 1)) + ((-108) * mn(p, 1, 2, 3, 3, 3, 0, 1) + ((1836) * mn(p, 1, 2, 3, 3, 1, 2, 2) + (1620) * mn(p, 1, 2, 3, 3, 1, 2, 0)))) + (((144) * mn(p, 1, 2, 3, 2, 3, 1, 2) + (324) * mn(p, 1, 2, 3, 2, 3, 1, 0)) + ((-864) * mn(p, 1, 2, 3, 2, 1, 3, 3) + ((-5184) * mn(p, 1, 2, 3, 2, 1, 3, 1) + (-540) * mn(p, 1, 2, 3, 1, 3, 2, 1))))) + ((((3078) * mn(p, 1, 2, 3, 1, 1, 4, 2) + (3402) * mn(p, 1, 2, 3, 1, 1, 4, 0)) + ((324) * mn(p, 1, 2, 3, 0, 3, 3, 0) + ((-2916) * mn(p, 1, 2, 3, 0, 1, 5, 1) + (-324) * mn(p, 1, 1, 4, 4, 2, 0, 1)))) + (((1134) * mn(p, 1, 1, 4, 3, 2, 1, 2) + (972) * mn(p, 1, 1, 4, 3, 2, 1, 0)) + ((27) * mn(p, 1, 1, 4, 2, 4, 0, 2) + ((-729) * mn(p, 1, 1, 4, 2, 2, 2, 3) + (-4860) * mn(p, 1, 1, 4, 2, 2, 2, 1)))))) + (((((-162) * mn(p, 1, 1, 4, 1, 4, 1, 1) + (3402) * mn(p, 1, 1, 4, 1, 2, 3, 2)) + ((4374) * mn(p, 1, 1, 4, 1, 2, 3, 0) + ((243) * mn(p, 1, 1, 4, 0, 4, 2, 0) + (-3645) * mn(p, 1, 1, 4, 0, 2, 4, 1)))) + (((162) * mn(p, 1, 0, 5, 3, 3, 0, 2) + (-162) * mn(p, 1, 0, 5, 2, 3, 1, 3)) + ((-972) * mn(p, 1, 0, 5, 2, 3, 1, 1) + ((972) * mn(p, 1, 0, 5, 1, 3, 2, 2) + (1458) * mn(p, 1, 0, 5, 1, 3, 2, 0))))) + ((((-1458) * mn(p, 1, 0, 5, 0, 3, 3, 1) + (1) * mn(p, 0, 6, 0, 3, 3, 0, 0)) + ((9) * mn(p, 0, 5, 1, 4, 2, 0, 0) + ((-18) * mn(p, 0, 5, 1, 3, 2, 1, 1) + (27) * mn(p, 0, 5, 1, 2, 2, 2, 0)))) + (((27) * mn(p, 0, 4, 2, 5, 1, 0, 0) + (-108) * mn(p, 0, 4, 2, 4, 1, 1, 1)) + ((-9) * mn(p, 0, 4, 2, 3, 3, 0, 1) + ((108) * mn(p, 0, 4, 2, 3, 1, 2, 2) + (162) * mn(p, 0, 4, 2, 3, 1, 2, 0))))))) + ((((((27) * mn(p, 0, 4, 2, 2, 3, 1, 0) + (-324) * mn(p, 0, 4, 2, 2, 1, 3, 1)) + ((243) * mn(p, 0, 4, 2, 1, 1, 4, 0) + ((27) * mn(p, 0, 3, 3, 6, 0, 0, 0) + (-162) * mn(p, 0, 3, 3, 5, 0, 1, 1)))) + (((-54) * mn(p, 0, 3, 3, 4, 2, 0, 1) + (324) * mn(p, 0, 3, 3, 4, 0, 2, 2)) + ((243) * mn(p, 0, 3, 3, 4, 0, 2, 0) + ((108) * mn(p, 0, 3, 3, 3, 2, 1, 2) + (162) * mn(p, 0, 3, 3, 3, 2, 1, 0))))) + ((((-216) * mn(p, 0, 3, 3, 3, 0, 3, 3) + (-972) * mn(p, 0, 3, 3, 3, 0, 3, 1)) + ((-486) * mn(p, 0, 3, 3, 2, 2, 2, 1) + ((972) * mn(p, 0, 3, 3, 2, 0, 4, 2) + (729) * mn(p, 0, 3, 3, 2, 0, 4, 0)))) + (((486) * mn(p, 0, 3, 3, 1, 2, 3, 0) + (-1458) * mn(p, 0, 3, 3, 1, 0, 5, 1)) + ((729) * mn(p, 0, 3, 3, 0, 0, 6, 0) + ((-81) * mn(p, 0, 2, 4, 5, 1, 0, 1) + (324) * mn(p, 0, 2, 4, 4, 1, 1, 2)))))) + (((((243) * mn(p, 0, 2, 4, 4, 1, 1, 0) + (27) * mn(p, 0, 2, 4, 3, 3, 0, 2)) + ((-324) * mn(p, 0, 2, 4, 3, 1, 2, 3) + ((-1458) * mn(p, 0, 2, 4, 3, 1, 2, 1) + (-162) * mn(p, 0, 2, 4, 2, 3, 1, 1)))) + (((1944) * mn(p, 0, 2, 4, 2, 1, 3, 2) + (1458) * mn(p, 0, 2, 4, 2, 1, 3, 0)) + ((243) * mn(p, 0, 2, 4, 1, 3, 2, 0) + ((-3645) * mn(p, 0, 2, 4, 1, 1, 4, 1) + (2187) * mn(p, 0, 2, 4, 0, 1, 5, 0))))) + ((((81) * mn(p, 0, 1, 5, 4, 2, 0, 2) + (-162) * mn(p, 0, 1, 5, 3, 2, 1, 3)) + ((-486) * mn(p, 0, 1, 5, 3, 2, 1, 1) + ((1215) * mn(p, 0, 1, 5, 2, 2, 2, 2) + (729) * mn(p, 0, 1, 5, 2, 2, 2, 0)))) + (((-2916) * mn(p, 0, 1, 5, 1, 2, 3, 1) + ((2187) * mn(p, 0, 1, 5, 0, 2, 4, 0) + (-27) * mn(p, 0, 0, 6, 3, 3, 0, 3))) + ((243) * mn(p, 0, 0, 6, 2, 3, 1, 2) + ((-729) * mn(p, 0, 0, 6, 1, 3, 2, 1) + (729) * mn(p, 0, 0, 6, 0, 3, 3, 0))))))))),
{
    let t0 = (-54) * mn(p, 1, 2, 1, 0, 0, 4, 1);
    let t1 = (36) * mn(p, 1, 1, 2, 3, 1, 0, 0);
    let t2 = (-144) * mn(p, 1, 1, 2, 2, 1, 1, 1);
    let t3 = (-6) * mn(p, 1, 1, 2, 1, 3, 0, 1);
    let t4 = (90) * mn(p, 1, 1, 2, 1, 1, 2, 2);
    let t5 = (216) * mn(p, 1, 1, 2, 1, 1, 2, 0);
    let t6 = (18) * mn(p, 1, 1, 2, 0, 3, 1, 0);
    let t7 = (-162) * mn(p, 1, 1, 2, 0, 1, 3, 1);
    let t8 = (-36) * mn(p, 1, 0, 3, 2, 2, 0, 1);
    let t9 = (36) * mn(p, 1, 0, 3, 1, 2, 1, 2);
    let t10 = (108) * mn(p, 1, 0, 3, 1, 2, 1, 0);
    let t11 = (-108) * mn(p, 1, 0, 3, 0, 2, 2, 1);
    let t12 = (1) * mn(p, 0, 4, 0, 2, 2, 0, 0);
    let t13 = (6) * mn(p, 0, 3, 1, 3, 1, 0, 0);
    let t14 = (-12) * mn(p, 0, 3, 1, 2, 1, 1, 1);
    let t15 = (18) * mn(p, 0, 3, 1, 1, 1, 2, 0);
    let t16 = (9) * mn(p, 0, 2, 2, 4, 0, 0, 0);
    let t17 = (-36) * mn(p, 0, 2, 2, 3, 0, 1, 1);
    let t18 = (-6) * mn(p, 0, 2, 2, 2, 2, 0, 1);
    let t19 = (36) * mn(p, 0, 2, 2, 2, 0, 2, 2);
    let t20 = (54) * mn(p, 0, 2, 2, 2, 0, 2, 0);
    let t21 = (18) * mn(p, 0, 2, 2, 1, 2, 1, 0);
    let t22 = (-108) * mn(p, 0, 2, 2, 1, 0, 3, 1);
    let t23 = (81) * mn(p, 0, 2, 2, 0, 0, 4, 0);
    let t24 = (-18) * mn(p, 0, 1, 3, 3, 1, 0, 1);
    let t25 = (36) * mn(p, 0, 1, 3, 2, 1, 1, 2);
    let t26 = (54) * mn(p, 0, 1, 3, 2, 1, 1, 0);
    let t27 = (-162) * mn(p, 0, 1, 3, 1, 1, 2, 1);
    let t28 = (162) * mn(p, 0, 1, 3, 0, 1, 3, 0);
    let t29 = (9) * mn(p, 0, 0, 4, 2, 2, 0, 2);
    let t30 = (-54) * mn(p, 0, 0, 4, 1, 2, 1, 1);
    let t31 = (81) * mn(p, 0, 0, 4, 0, 2, 2, 0);
    let s0 = (3) * mn(p, 2, 0, 0, 0, 1, 1, 0);
    let s1 = (6) * mn(p, 1, 1, 0, 1, 0, 1, 0);
    let s2 = (1) * mn(p, 1, 1, 0, 0, 2, 0, 0);
    let s3 = (-3) * mn(p, 1, 1, 0, 0, 0, 2, 1);
    let s4 = (6) * mn(p, 1, 0, 1, 1, 1, 0, 0);
    let s5 = (-6) * mn(p, 1, 0, 1, 0, 1, 1, 1);
    let s6 = (1) * mn(p, 0, 2, 0, 1, 1, 0, 0);
    let s7 = (3) * mn(p, 0, 1, 1, 2, 0, 0, 0);
    let s8 = (-6) * mn(p, 0, 1, 1, 1, 0, 1, 1);
    let s9 = (9) * mn(p, 0, 1, 1, 0, 0, 2, 0);
    let s10 = (-3) * mn(p, 0, 0, 2, 1, 1, 0, 1);
    let s11 = (9) * mn(p, 0, 0, 2, 0, 1, 1, 0);
    let pp0 = t0;
    let pp1 = pp0 + t1;
    let pp2 = pp1 + t2;
    let pp3 = pp2 + t3;
    let pp4 = pp3 + t4;
    let pp5 = pp4 + t5;
    let pp6 = pp5 + t6;
    let pp7 = pp6 + t7;
    let pp8 = pp7 + t8;
    let pp9 = pp8 + t9;
    let pp10 = pp9 + t10;
    let pp11 = pp10 + t11;
    let pp12 = pp11 + t12;
    let pp13 = pp12 + t13;
    let pp14 = pp13 + t14;
    let pp15 = pp14 + t15;
    let pp16 = pp15 + t16;
    let pp17 = pp16 + t17;
    let pp18 = pp17 + t18;
    let pp19 = pp18 + t19;
    let pp20 = pp19 + t20;
    let pp21 = pp20 + t21;
    let pp22 = pp21 + t22;
    let pp23 = pp22 + t23;
    let pp24 = pp23 + t24;
    let pp25 = pp24 + t25;
    let pp26 = pp25 + t26;
    let pp27 = pp26 + t27;
    let pp28 = pp27 + t28;
    let pp29 = pp28 + t29;
    let pp30 = pp29 + t30;
    let pp31 = pp30 + t31;
    let qq0 = s0;
    let qq1 = qq0 + s1;
    let qq2 = qq1 + s2;
    let qq3 = qq2 + s3;
    let qq4 = qq3 + s4;
    let qq5 = qq4 + s5;
    let qq6 = qq5 + s6;
    let qq7 = qq6 + s7;
    let qq8 = qq7 + s8;
    let qq9 = qq8 + s9;
    let qq10 = qq9 + s10;
    let qq11 = qq10 + s11;
    let q = qq11;
    lemma_mul_is_distributive_add_other_way(q, pp0, t1);
    lemma_mul_is_distributive_add_other_way(q, pp1, t2);
    lemma_mul_is_distributive_add_other_way(q, pp2, t3);
    lemma_mul_is_distributive_add_other_way(q, pp3, t4);
    lemma_mul_is_distributive_add_other_way(q, pp4, t5);
    lemma_mul_is_distributive_add_other_way(q, pp5, t6);
    lemma_mul_is_distributive_add_other_way(q, pp6, t7);
    lemma_mul_is_distributive_add_other_way(q, pp7, t8);
    lemma_mul_is_distributive_add_other_way(q, pp8, t9);
    lemma_mul_is_distributive_add_other_way(q, pp9, t10);
    lemma_mul_is_distributive_add_other_way(q, pp10, t11);
    lemma_mul_is_distributive_add_other_way(q, pp11, t12);
    lemma_mul_is_distributive_add_other_way(q, pp12, t13);
    lemma_mul_is_distributive_add_other_way(q, pp13, t14);
    lemma_mul_is_distributive_add_other_way(q, pp14, t15);
    lemma_mul_is_distributive_add_other_way(q, pp15, t16);
    lemma_mul_is_distributive_add_other_way(q, pp16, t17);
    lemma_mul_is_distributive_add_other_way(q, pp17, t18);
    lemma_mul_is_distributive_add_other_way(q, pp18, t19);
    lemma_mul_is_distributive_add_other_way(q, pp19, t20);
    lemma_mul_is_distributive_add_other_way(q, pp20, t21);
    lemma_mul_is_distributive_add_other_way(q, pp21, t22);
    lemma_mul_is_distributive_add_other_way(q, pp22, t23);
    lemma_mul_is_distributive_add_other_way(q, pp23, t24);
    lemma_mul_is_distributive_add_other_way(q, pp24, t25);
    lemma_mul_is_distributive_add_other_way(q, pp25, t26);
    lemma_mul_is_distributive_add_other_way(q, pp26, t27);
    lemma_mul_is_distributive_add_other_way(q, pp27, t28);
    lemma_mul_is_distributive_add_other_way(q, pp28, t29);
    lemma_mul_is_distributive_add_other_way(q, pp29, t30);
    lemma_mul_is_distributive_add_other_way(q, pp30, t31);
    lemma_mul_is_distributive_add(t0, qq0, s1);
    lemma_mul_is_distributive_add(t0, qq1, s2);
    lemma_mul_is_distributive_add(t0, qq2, s3);
    lemma_mul_is_distributive_add(t0, qq3, s4);
    lemma_mul_is_distributive_add(t0, qq4, s5);
    lemma_mul_is_distributive_add(t0, qq5, s6);
    lemma_mul_is_distributive_add(t0, qq6, s7);
    lemma_mul_is_distributive_add(t0, qq7, s8);
    lemma_mul_is_distributive_add(t0, qq8, s9);
    lemma_mul_is_distributive_add(t0, qq9, s10);
    lemma_mul_is_distributive_add(t0, qq10, s11);
    lemma_mul_is_distributive_add(t1, qq0, s1);
    lemma_mul_is_distributive_add(t1, qq1, s2);
    lemma_mul_is_distributive_add(t1, qq2, s3);
    lemma_mul_is_distributive_add(t1, qq3, s4);
    lemma_mul_is_distributive_add(t1, qq4, s5);
    lemma_mul_is_distributive_add(t1, qq5, s6);
    lemma_mul_is_distributive_add(t1, qq6, s7);
    lemma_mul_is_distributive_add(t1, qq7, s8);
    lemma_mul_is_distributive_add(t1, qq8, s9);
    lemma_mul_is_distributive_add(t1, qq9, s10);
    lemma_mul_is_distributive_add(t1, qq10, s11);
    lemma_mul_is_distributive_add(t2, qq0, s1);
    lemma_mul_is_distributive_add(t2, qq1, s2);
    lemma_mul_is_distributive_add(t2, qq2, s3);
    lemma_mul_is_distributive_add(t2, qq3, s4);
    lemma_mul_is_distributive_add(t2, qq4, s5);
    lemma_mul_is_distributive_add(t2, qq5, s6);
    lemma_mul_is_distributive_add(t2, qq6, s7);
    lemma_mul_is_distributive_add(t2, qq7, s8);
    lemma_mul_is_distributive_add(t2, qq8, s9);
    lemma_mul_is_distributive_add(t2, qq9, s10);
    lemma_mul_is_distributive_add(t2, qq10, s11);
    lemma_mul_is_distributive_add(t3, qq0, s1);
    lemma_mul_is_distributive_add(t3, qq1, s2);
    lemma_mul_is_distributive_add(t3, qq2, s3);
    lemma_mul_is_distributive_add(t3, qq3, s4);
    lemma_mul_is_distributive_add(t3, qq4, s5);
    lemma_mul_is_distributive_add(t3, qq5, s6);
    lemma_mul_is_distributive_add(t3, qq6, s7);
    lemma_mul_is_distributive_add(t3, qq7, s8);
    lemma_mul_is_distributive_add(t3, qq8, s9);
    lemma_mul_is_distributive_add(t3, qq9, s10);
    lemma_mul_is_distributive_add(t3, qq10, s11);
    lemma_mul_is_distributive_add(t4, qq0, s1);
    lemma_mul_is_distributive_add(t4, qq1, s2);
    lemma_mul_is_distributive_add(t4, qq2, s3);
    lemma_mul_is_distributive_add(t4, qq3, s4);
    lemma_mul_is_distributive_add(t4, qq4, s5);
    lemma_mul_is_distributive_add(t4, qq5, s6);
    lemma_mul_is_distributive_add(t4, qq6, s7);
    lemma_mul_is_distributive_add(t4, qq7, s8);
    lemma_mul_is_distributive_add(t4, qq8, s9);
    lemma_mul_is_distributive_add(t4, qq9, s10);
    lemma_mul_is_distributive_add(t4, qq10, s11);
    lemma_mul_is_distributive_add(t5, qq0, s1);
    lemma_mul_is_distributive_add(t5, qq1, s2);
    lemma_mul_is_distributive_add(t5, qq2, s3);
    lemma_mul_is_distributive_add(t5, qq3, s4);
    lemma_mul_is_distributive_add(t5, qq4, s5);
    lemma_mul_is_distributive_add(t5, qq5, s6);
    lemma_mul_is_distributive_add(t5, qq6, s7);
    lemma_mul_is_distributive_add(t5, qq7, s8);
    lemma_mul_is_distributive_add(t5, qq8, s9);
    lemma_mul_is_distributive_add(t5, qq9, s10);
    lemma_mul_is_distributive_add(t5, qq10, s11);
    lemma_mul_is_distributive_add(t6, qq0, s1);
    lemma_mul_is_distributive_add(t6, qq1, s2);
    lemma_mul_is_distributive_add(t6, qq2, s3);
    lemma_mul_is_distributive_add(t6, qq3, s4);
    lemma_mul_is_distributive_add(t6, qq4, s5);
    lemma_mul_is_distributive_add(t6, qq5, s6);
    lemma_mul_is_distributive_add(t6, qq6, s7);
    lemma_mul_is_distributive_add(t6, qq7, s8);
    lemma_mul_is_distributive_add(t6, qq8, s9);
    lemma_mul_is_distributive_add(t6, qq9, s10);
    lemma_mul_is_distributive_add(t6, qq10, s11);
    lemma_mul_is_distributive_add(t7, qq0, s1);
    lemma_mul_is_distributive_add(t7, qq1, s2);
    lemma_mul_is_distributive_add(t7, qq2, s3);
    lemma_mul_is_distributive_add(t7, qq3, s4);
    lemma_mul_is_distributive_add(t7, qq4, s5);
    lemma_mul_is_distributive_add(t7, qq5, s6);
    lemma_mul_is_distributive_add(t7, qq6, s7);
    lemma_mul_is_distributive_add(t7, qq7, s8);
    lemma_mul_is_distributive_add(t7, qq8, s9);
    lemma_mul_is_distributive_add(t7, qq9, s10);
    lemma_mul_is_distributive_add(t7, qq10, s11);
    lemma_mul_is_distributive_add(t8, qq0, s1);
    lemma_mul_is_distributive_add(t8, qq1, s2);
    lemma_mul_is_distributive_add(t8, qq2, s3);
    lemma_mul_is_distributive_add(t8, qq3, s4);
    lemma_mul_is_distributive_add(t8, qq4, s5);
    lemma_mul_is_distributive_add(t8, qq5, s6);
    lemma_mul_is_distributive_add(t8, qq6, s7);
    lemma_mul_is_distributive_add(t8, qq7, s8);
    lemma_mul_is_distributive_add(t8, qq8, s9);
    lemma_mul_is_distributive_add(t8, qq9, s10);
    lemma_mul_is_distributive_add(t8, qq10, s11);
    lemma_mul_is_distributive_add(t9, qq0, s1);
    lemma_mul_is_distributive_add(t9, qq1, s2);
    lemma_mul_is_distributive_add(t9, qq2, s3);
    lemma_mul_is_distributive_add(t9, qq3, s4);
    lemma_mul_is_distributive_add(t9, qq4, s5);
    lemma_mul_is_distributive_add(t9, qq5, s6);
    lemma_mul_is_distributive_add(t9, qq6, s7);
    lemma_mul_is_distributive_add(t9, qq7, s8);
    lemma_mul_is_distributive_add(t9, qq8, s9);
    lemma_mul_is_distributive_add(t9, qq9, s10);
    lemma_mul_is_distributive_add(t9, qq10, s11);
    lemma_mul_is_distributive_add(t10, qq0, s1);
    lemma_mul_is_distributive_add(t10, qq1, s2);
    lemma_mul_is_distributive_add(t10, qq2, s3);
    lemma_mul_is_distributive_add(t10, qq3, s4);
    lemma_mul_is_distributive_add(t10, qq4, s5);
    lemma_mul_is_distributive_add(t10, qq5, s6);
    lemma_mul_is_distributive_add(t10, qq6, s7);
    lemma_mul_is_distributive_add(t10, qq7, s8);
    lemma_mul_is_distributive_add(t10, qq8, s9);
    lemma_mul_is_distributive_add(t10, qq9, s10);
    lemma_mul_is_distributive_add(t10, qq10, s11);
    lemma_mul_is_distributive_add(t11, qq0, s1);
    lemma_mul_is_distributive_add(t11, qq1, s2);
    lemma_mul_is_distributive_add(t11, qq2, s3);
    lemma_mul_is_distributive_add(t11, qq3, s4);
    lemma_mul_is_distributive_add(t11, qq4, s5);
    lemma_mul_is_distributive_add(t11, qq5, s6);
    lemma_mul_is_distributive_add(t11, qq6, s7);
    lemma_mul_is_distributive_add(t11, qq7, s8);
    lemma_mul_is_distributive_add(t11, qq8, s9);
    lemma_mul_is_distributive_add(t11, qq9, s10);
    lemma_mul_is_distributive_add(t11, qq10, s11);
    lemma_mul_is_distributive_add(t12, qq0, s1);
    lemma_mul_is_distributive_add(t12, qq1, s2);
    lemma_mul_is_distributive_add(t12, qq2, s3);
    lemma_mul_is_distributive_add(t12, qq3, s4);
    lemma_mul_is_distributive_add(t12, qq4, s5);
    lemma_mul_is_distributive_add(t12, qq5, s6);
    lemma_mul_is_distributive_add(t12, qq6, s7);
    lemma_mul_is_distributive_add(t12, qq7, s8);
    lemma_mul_is_distributive_add(t12, qq8, s9);
    lemma_mul_is_distributive_add(t12, qq9, s10);
    lemma_mul_is_distributive_add(t12, qq10, s11);
    lemma_mul_is_distributive_add(t13, qq0, s1);
    lemma_mul_is_distributive_add(t13, qq1, s2);
    lemma_mul_is_distributive_add(t13, qq2, s3);
    lemma_mul_is_distributive_add(t13, qq3, s4);
    lemma_mul_is_distributive_add(t13, qq4, s5);
    lemma_mul_is_distributive_add(t13, qq5, s6);
    lemma_mul_is_distributive_add(t13, qq6, s7);
    lemma_mul_is_distributive_add(t13, qq7, s8);
    lemma_mul_is_distributive_add(t13, qq8, s9);
    lemma_mul_is_distributive_add(t13, qq9, s10);
    lemma_mul_is_distributive_add(t13, qq10, s11);
    lemma_mul_is_distributive_add(t14, qq0, s1);
    lemma_mul_is_distributive_add(t14, qq1, s2);
    lemma_mul_is_distributive_add(t14, qq2, s3);
    lemma_mul_is_distributive_add(t14, qq3, s4);
    lemma_mul_is_distributive_add(t14, qq4, s5);
    lemma_mul_is_distributive_add(t14, qq5, s6);
    lemma_mul_is_distributive_add(t14, qq6, s7);
    lemma_mul_is_distributive_add(t14, qq7, s8);
    lemma_mul_is_distributive_add(t14, qq8, s9);
    lemma_mul_is_distributive_add(t14, qq9, s10);
    lemma_mul_is_distributive_add(t14, qq10, s11);
    lemma_mul_is_distributive_add(t15, qq0, s1);
    lemma_mul_is_distributive_add(t15, qq1, s2);
    lemma_mul_is_distributive_add(t15, qq2, s3);
    lemma_mul_is_distributive_add(t15, qq3, s4);
    lemma_mul_is_distributive_add(t15, qq4, s5);
    lemma_mul_is_distributive_add(t15, qq5, s6);
    lemma_mul_is_distributive_add(t15, qq6, s7);
    lemma_mul_is_distributive_add(t15, qq7, s8);
    lemma_mul_is_distributive_add(t15, qq8, s9);
    lemma_mul_is_distributive_add(t15, qq9, s10);
    lemma_mul_is_distributive_add(t15, qq10, s11);
    lemma_mul_is_distributive_add(t16, qq0, s1);
    lemma_mul_is_distributive_add(t16, qq1, s2);
    lemma_mul_is_distributive_add(t16, qq2, s3);
    lemma_mul_is_distributive_add(t16, qq3, s4);
    lemma_mul_is_distributive_add(t16, qq4, s5);
    lemma_mul_is_distributive_add(t16, qq5, s6);
    lemma_mul_is_distributive_add(t16, qq6, s7);
    lemma_mul_is_distributive_add(t16, qq7, s8);
    lemma_mul_is_distributive_add(t16, qq8, s9);
    lemma_mul_is_distributive_add(t16, qq9, s10);
    lemma_mul_is_distributive_add(t16, qq10, s11);
    lemma_mul_is_distributive_add(t17, qq0, s1);
    lemma_mul_is_distributive_add(t17, qq1, s2);
    lemma_mul_is_distributive_add(t17, qq2, s3);
    lemma_mul_is_distributive_add(t17, qq3, s4);
    lemma_mul_is_distributive_add(t17, qq4, s5);
    lemma_mul_is_distributive_add(t17, qq5, s6);
    lemma_mul_is_distributive_add(t17, qq6, s7);
    lemma_mul_is_distributive_add(t17, qq7, s8);
    lemma_mul_is_distributive_add(t17, qq8, s9);
    lemma_mul_is_distributive_add(t17, qq9, s10);
    lemma_mul_is_distributive_add(t17, qq10, s11);
    lemma_mul_is_distributive_add(t18, qq0, s1);
    lemma_mul_is_distributive_add(t18, qq1, s2);
    lemma_mul_is_distributive_add(t18, qq2, s3);
    lemma_mul_is_distributive_add(t18, qq3, s4);
    lemma_mul_is_distributive_add(t18, qq4, s5);
    lemma_mul_is_distributive_add(t18, qq5, s6);
    lemma_mul_is_distributive_add(t18, qq6, s7);
    lemma_mul_is_distributive_add(t18, qq7, s8);
    lemma_mul_is_distributive_add(t18, qq8, s9);
    lemma_mul_is_distributive_add(t18, qq9, s10);
    lemma_mul_is_distributive_add(t18, qq10, s11);
    lemma_mul_is_distributive_add(t19, qq0, s1);
    lemma_mul_is_distributive_add(t19, qq1, s2);
    lemma_mul_is_distributive_add(t19, qq2, s3);
    lemma_mul_is_distributive_add(t19, qq3, s4);
    lemma_mul_is_distributive_add(t19, qq4, s5);
    lemma_mul_is_distributive_add(t19, qq5, s6);
    lemma_mul_is_distributive_add(t19, qq6, s7);
    lemma_mul_is_distributive_add(t19, qq7, s8);
    lemma_mul_is_distributive_add(t19, qq8, s9);
    lemma_mul_is_distributive_add(t19, qq9, s10);
    lemma_mul_is_distributive_add(t19, qq10, s11);
    lemma_mul_is_distributive_add(t20, qq0, s1);
    lemma_mul_is_distributive_add(t20, qq1, s2);
    lemma_mul_is_distributive_add(t20, qq2, s3);
    lemma_mul_is_distributive_add(t20, qq3, s4);
    lemma_mul_is_distributive_add(t20, qq4, s5);
    lemma_mul_is_distributive_add(t20, qq5, s6);
    lemma_mul_is_distributive_add(t20, qq6, s7);
    lemma_mul_is_distributive_add(t20, qq7, s8);
    lemma_mul_is_distributive_add(t20, qq8, s9);
    lemma_mul_is_distributive_add(t20, qq9, s10);
    lemma_mul_is_distributive_add(t20, qq10, s11);
    lemma_mul_is_distributive_add(t21, qq0, s1);
    lemma_mul_is_distributive_add(t21, qq1, s2);
    lemma_mul_is_distributive_add(t21, qq2, s3);
    lemma_mul_is_distributive_add(t21, qq3, s4);
    lemma_mul_is_distributive_add(t21, qq4, s5);
    lemma_mul_is_distributive_add(t21, qq5, s6);
    lemma_mul_is_distributive_add(t21, qq6, s7);
    lemma_mul_is_distributive_add(t21, qq7, s8);
    lemma_mul_is_distributive_add(t21, qq8, s9);
    lemma_mul_is_distributive_add(t21, qq9, s10);
    lemma_mul_is_distributive_add(t21, qq10, s11);
    lemma_mul_is_distributive_add(t22, qq0, s1);
    lemma_mul_is_distributive_add(t22, qq1, s2);
    lemma_mul_is_distributive_add(t22, qq2, s3);
    lemma_mul_is_distributive_add(t22, qq3, s4);
    lemma_mul_is_distributive_add(t22, qq4, s5);
    lemma_mul_is_distributive_add(t22, qq5, s6);
    lemma_mul_is_distributive_add(t22, qq6, s7);
    lemma_mul_is_distributive_add(t22, qq7, s8);
    lemma_mul_is_distributive_add(t22, qq8, s9);
    lemma_mul_is_distributive_add(t22, qq9, s10);
    lemma_mul_is_distributive_add(t22, qq10, s11);
    lemma_mul_is_distributive_add(t23, qq0, s1);
    lemma_mul_is_distributive_add(t23, qq1, s2);
    lemma_mul_is_distributive_add(t23, qq2, s3);
    lemma_mul_is_distributive_add(t23, qq3, s4);
    lemma_mul_is_distributive_add(t23, qq4, s5);
    lemma_mul_is_distributive_add(t23, qq5, s6);
    lemma_mul_is_distributive_add(t23, qq6, s7);
    lemma_mul_is_distributive_add(t23, qq7, s8);
    lemma_mul_is_distributive_add(t23, qq8, s9);
    lemma_mul_is_distributive_add(t23, qq9, s10);
    lemma_mul_is_distributive_add(t23, qq10, s11);
    lemma_mul_is_distributive_add(t24, qq0, s1);
    lemma_mul_is_distributive_add(t24, qq1, s2);
    lemma_mul_is_distributive_add(t24, qq2, s3);
    lemma_mul_is_distributive_add(t24, qq3, s4);
    lemma_mul_is_distributive_add(t24, qq4, s5);
    lemma_mul_is_distributive_add(t24, qq5, s6);
    lemma_mul_is_distributive_add(t24, qq6, s7);
    lemma_mul_is_distributive_add(t24, qq7, s8);
    lemma_mul_is_distributive_add(t24, qq8, s9);
    lemma_mul_is_distributive_add(t24, qq9, s10);
    lemma_mul_is_distributive_add(t24, qq10, s11);
    lemma_mul_is_distributive_add(t25, qq0, s1);
    lemma_mul_is_distributive_add(t25, qq1, s2);
    lemma_mul_is_distributive_add(t25, qq2, s3);
    lemma_mul_is_distributive_add(t25, qq3, s4);
    lemma_mul_is_distributive_add(t25, qq4, s5);
    lemma_mul_is_distributive_add(t25, qq5, s6);
    lemma_mul_is_distributive_add(t25, qq6, s7);
    lemma_mul_is_distributive_add(t25, qq7, s8);
    lemma_mul_is_distributive_add(t25, qq8, s9);
    lemma_mul_is_distributive_add(t25, qq9, s10);
    lemma_mul_is_distributive_add(t25, qq10, s11);
    lemma_mul_is_distributive_add(t26, qq0, s1);
    lemma_mul_is_distributive_add(t26, qq1, s2);
    lemma_mul_is_distributive_add(t26, qq2, s3);
    lemma_mul_is_distributive_add(t26, qq3, s4);
    lemma_mul_is_distributive_add(t26, qq4, s5);
    lemma_mul_is_distributive_add(t26, qq5, s6);
    lemma_mul_is_distributive_add(t26, qq6, s7);
    lemma_mul_is_distributive_add(t26, qq7, s8);
    lemma_mul_is_distributive_add(t26, qq8, s9);
    lemma_mul_is_distributive_add(t26, qq9, s10);
    lemma_mul_is_distributive_add(t26, qq10, s11);
    lemma_mul_is_distributive_add(t27, qq0, s1);
    lemma_mul_is_distributive_add(t27, qq1, s2);
    lemma_mul_is_distributive_add(t27, qq2, s3);
    lemma_mul_is_distributive_add(t27, qq3, s4);
    lemma_mul_is_distributive_add(t27, qq4, s5);
    lemma_mul_is_distributive_add(t27, qq5, s6);
    lemma_mul_is_distributive_add(t27, qq6, s7);
    lemma_mul_is_distributive_add(t27, qq7, s8);
    lemma_mul_is_distributive_add(t27, qq8, s9);
    lemma_mul_is_distributive_add(t27, qq9, s10);
    lemma_mul_is_distributive_add(t27, qq10, s11);
    lemma_mul_is_distributive_add(t28, qq0, s1);
    lemma_mul_is_distributive_add(t28, qq1, s2);
    lemma_mul_is_distributive_add(t28, qq2, s3);
    lemma_mul_is_distributive_add(t28, qq3, s4);
    lemma_mul_is_distributive_add(t28, qq4, s5);
    lemma_mul_is_distributive_add(t28, qq5, s6);
    lemma_mul_is_distributive_add(t28, qq6, s7);
    lemma_mul_is_distributive_add(t28, qq7, s8);
    lemma_mul_is_distributive_add(t28, qq8, s9);
    lemma_mul_is_distributive_add(t28, qq9, s10);
    lemma_mul_is_distributive_add(t28, qq10, s11);
    lemma_mul_is_distributive_add(t29, qq0, s1);
    lemma_mul_is_distributive_add(t29, qq1, s2);
    lemma_mul_is_distributive_add(t29, qq2, s3);
    lemma_mul_is_distributive_add(t29, qq3, s4);
    lemma_mul_is_distributive_add(t29, qq4, s5);
    lemma_mul_is_distributive_add(t29, qq5, s6);
    lemma_mul_is_distributive_add(t29, qq6, s7);
    lemma_mul_is_distributive_add(t29, qq7, s8);
    lemma_mul_is_distributive_add(t29, qq8, s9);
    lemma_mul_is_distributive_add(t29, qq9, s10);
    lemma_mul_is_distributive_add(t29, qq10, s11);
    lemma_mul_is_distributive_add(t30, qq0, s1);
    lemma_mul_is_distributive_add(t30, qq1, s2);
    lemma_mul_is_distributive_add(t30, qq2, s3);
    lemma_mul_is_distributive_add(t30, qq3, s4);
    lemma_mul_is_distributive_add(t30, qq4, s5);
    lemma_mul_is_distributive_add(t30, qq5, s6);
    lemma_mul_is_distributive_add(t30, qq6, s7);
    lemma_mul_is_distributive_add(t30, qq7, s8);
    lemma_mul_is_distributive_add(t30, qq8, s9);
    lemma_mul_is_distributive_add(t30, qq9, s10);
    lemma_mul_is_distributive_add(t30, qq10, s11);
    lemma_mul_is_distributive_add(t31, qq0, s1);
    lemma_mul_is_distributive_add(t31, qq1, s2);
    lemma_mul_is_distributive_add(t31, qq2, s3);
    lemma_mul_is_distributive_add(t31, qq3, s4);
    lemma_mul_is_distributive_add(t31, qq4, s5);
    lemma_mul_is_distributive_add(t31, qq5, s6);
    lemma_mul_is_distributive_add(t31, qq6, s7);
    lemma_mul_is_distributive_add(t31, qq7, s8);
    lemma_mul_is_distributive_add(t31, qq8, s9);
    lemma_mul_is_distributive_add(t31, qq9, s10);
    lemma_mul_is_distributive_add(t31, qq10, s11);
    lemma_tm(p, -54, 1, 2, 1, 0, 0, 4, 1, 3, 2, 0, 0, 0, 1, 1, 0);
    assert(t0 * s0 == (-162) * mn(p, 3, 2, 1, 0, 1, 5, 1));
    lemma_tm(p, -54, 1, 2, 1, 0, 0, 4, 1, 6, 1, 1, 0, 1, 0, 1, 0);
    assert(t0 * s1 == (-324) * mn(p, 2, 3, 1, 1, 0, 5, 1));
    lemma_tm(p, -54, 1, 2, 1, 0, 0, 4, 1, 1, 1, 1, 0, 0, 2, 0, 0);
    assert(t0 * s2 == (-54) * mn(p, 2, 3, 1, 0, 2, 4, 1));
    lemma_tm(p, -54, 1, 2, 1, 0, 0, 4, 1, -3, 1, 1, 0, 0, 0, 2, 1);
    assert(t0 * s3 == (162) * mn(p, 2, 3, 1, 0, 0, 6, 2));
    lemma_tm(p, -54, 1, 2, 1, 0, 0, 4, 1, 6, 1, 0, 1, 1, 1, 0, 0);
    assert(t0 * s4 == (-324) * mn(p, 2, 2, 2, 1, 1, 4, 1));
    lemma_tm(p, -54, 1, 2, 1, 0, 0, 4, 1, -6, 1, 0, 1, 0, 1, 1, 1);
    assert(t0 * s5 == (324) * mn(p, 2, 2, 2, 0, 1, 5, 2));
    lemma_tm(p, -54, 1, 2, 1, 0, 0, 4, 1, 1, 0, 2, 0, 1, 1, 0, 0);
    assert(t0 * s6 == (-54) * mn(p, 1, 4, 1, 1, 1, 4, 1));
    lemma_tm(p, -54, 1, 2, 1, 0, 0, 4, 1, 3, 0, 1, 1, 2, 0, 0, 0);
    assert(t0 * s7 == (-162) * mn(p, 1, 3, 2, 2, 0, 4, 1));
    lemma_tm(p, -54, 1, 2, 1, 0, 0, 4, 1, -6, 0, 1, 1, 1, 0, 1, 1);
    assert(t0 * s8 == (324) * mn(p, 1, 3, 2, 1, 0, 5, 2));
    lemma_tm(p, -54, 1, 2, 1, 0, 0, 4, 1, 9, 0, 1, 1, 0, 0, 2, 0);
    assert(t0 * s9 == (-486) * mn(p, 1, 3, 2, 0, 0, 6, 1));
    lemma_tm(p, -54, 1, 2, 1, 0, 0, 4, 1, -3, 0, 0, 2, 1, 1, 0, 1);
    assert(t0 * s10 == (162) * mn(p, 1, 2, 3, 1, 1, 4, 2));
    lemma_tm(p, -54, 1, 2, 1, 0, 0, 4, 1, 9, 0, 0, 2, 0, 1, 1, 0);
    assert(t0 * s11 == (-486) * mn(p, 1, 2, 3, 0, 1, 5, 1));
    assert(t0 * q == (-162) * mn(p, 3, 2, 1, 0, 1, 5, 1) + (-324) * mn(p, 2, 3, 1, 1, 0, 5, 1) + (-54) * mn(p, 2, 3, 1, 0, 2, 4, 1) + (162) * mn(p, 2, 3, 1, 0, 0, 6, 2) + (-324) * mn(p, 2, 2, 2, 1, 1, 4, 1) + (324) * mn(p, 2, 2, 2, 0, 1, 5, 2) + (-54) * mn(p, 1, 4, 1, 1, 1, 4, 1) + (-162) * mn(p, 1, 3, 2, 2, 0, 4, 1) + (324) * mn(p, 1, 3, 2, 1, 0, 5, 2) + (-486) * mn(p, 1, 3, 2, 0, 0, 6, 1) + (162) * mn(p, 1, 2, 3, 1, 1, 4, 2) + (-486) * mn(p, 1, 2, 3, 0, 1, 5, 1));
    lemma_tm(p, 36, 1, 1, 2, 3, 1, 0, 0, 3, 2, 0, 0, 0, 1, 1, 0);
    assert(t1 * s0 == (108) * mn(p, 3, 1, 2, 3, 2, 1, 0));
    lemma_tm(p, 36, 1, 1, 2, 3, 1, 0, 0, 6, 1, 1, 0, 1, 0, 1, 0);
    assert(t1 * s1 == (216) * mn(p, 2, 2, 2, 4, 1, 1, 0));
    lemma_tm(p, 36, 1, 1, 2, 3, 1, 0, 0, 1, 1, 1, 0, 0, 2, 0, 0);
    assert(t1 * s2 == (36) * mn(p, 2, 2, 2, 3, 3, 0, 0));
    lemma_tm(p, 36, 1, 1, 2, 3, 1, 0, 0, -3, 1, 1, 0, 0, 0, 2, 1);
    assert(t1 * s3 == (-108) * mn(p, 2, 2, 2, 3, 1, 2, 1));
    lemma_tm(p, 36, 1, 1, 2, 3, 1, 0, 0, 6, 1, 0, 1, 1, 1, 0, 0);
    assert(t1 * s4 == (216) * mn(p, 2, 1, 3, 4, 2, 0, 0));
    lemma_tm(p, 36, 1, 1, 2, 3, 1, 0, 0, -6, 1, 0, 1, 0, 1, 1, 1);
    assert(t1 * s5 == (-216) * mn(p, 2, 1, 3, 3, 2, 1, 1));
    lemma_tm(p, 36, 1, 1, 2, 3, 1, 0, 0, 1, 0, 2, 0, 1, 1, 0, 0);
    assert(t1 * s6 == (36) * mn(p, 1, 3, 2, 4, 2, 0, 0));
    lemma_tm(p, 36, 1, 1, 2, 3, 1, 0, 0, 3, 0, 1, 1, 2, 0, 0, 0);
    assert(t1 * s7 == (108) * mn(p, 1, 2, 3, 5, 1, 0, 0));
    lemma_tm(p, 36, 1, 1, 2, 3, 1, 0, 0, -6, 0, 1, 1, 1, 0, 1, 1);
    assert(t1 * s8 == (-216) * mn(p, 1, 2, 3, 4, 1, 1, 1));
    lemma_tm(p, 36, 1, 1, 2, 3, 1, 0, 0, 9, 0, 1, 1, 0, 0, 2, 0);
    assert(t1 * s9 == (324) * mn(p, 1, 2, 3, 3, 1, 2, 0));
    lemma_tm(p, 36, 1, 1, 2, 3, 1, 0, 0, -3, 0, 0, 2, 1, 1, 0, 1);
    assert(t1 * s10 == (-108) * mn(p, 1, 1, 4, 4, 2, 0, 1));
    lemma_tm(p, 36, 1, 1, 2, 3, 1, 0, 0, 9, 0, 0, 2, 0, 1, 1, 0);
    assert(t1 * s11 == (324) * mn(p, 1, 1, 4, 3, 2, 1, 0));
    assert(t1 * q == (108) * mn(p, 3, 1, 2, 3, 2, 1, 0) + (216) * mn(p, 2, 2, 2, 4, 1, 1, 0) + (36) * mn(p, 2, 2, 2, 3, 3, 0, 0) + (-108) * mn(p, 2, 2, 2, 3, 1, 2, 1) + (216) * mn(p, 2, 1, 3, 4, 2, 0, 0) + (-216) * mn(p, 2, 1, 3, 3, 2, 1, 1) + (36) * mn(p, 1, 3, 2, 4, 2, 0, 0) + (108) * mn(p, 1, 2, 3, 5, 1, 0, 0) + (-216) * mn(p, 1, 2, 3, 4, 1, 1, 1) + (324) * mn(p, 1, 2, 3, 3, 1, 2, 0) + (-108) * mn(p, 1, 1, 4, 4, 2, 0, 1) + (324) * mn(p, 1, 1, 4, 3, 2, 1, 0));
    lemma_tm(p, -144, 1, 1, 2, 2, 1, 1, 1, 3, 2, 0, 0, 0, 1, 1, 0);
    assert(t2 * s0 == (-432) * mn(p, 3, 1, 2, 2, 2, 2, 1));
    lemma_tm(p, -144, 1, 1, 2, 2, 1, 1, 1, 6, 1, 1, 0, 1, 0, 1, 0);
    assert(t2 * s1 == (-864) * mn(p, 2, 2, 2, 3, 1, 2, 1));
    lemma_tm(p, -144, 1, 1, 2, 2, 1, 1, 1, 1, 1, 1, 0, 0, 2, 0, 0);
    assert(t2 * s2 == (-144) * mn(p, 2, 2, 2, 2, 3, 1, 1));
    lemma_tm(p, -144, 1, 1, 2, 2, 1, 1, 1, -3, 1, 1, 0, 0, 0, 2, 1);
    assert(t2 * s3 == (432) * mn(p, 2, 2, 2, 2, 1, 3, 2));
    lemma_tm(p, -144, 1, 1, 2, 2, 1, 1, 1, 6, 1, 0, 1, 1, 1, 0, 0);
    assert(t2 * s4 == (-864) * mn(p, 2, 1, 3, 3, 2, 1, 1));
    lemma_tm(p, -144, 1, 1, 2, 2, 1, 1, 1, -6, 1, 0, 1, 0, 1, 1, 1);
    assert(t2 * s5 == (864) * mn(p, 2, 1, 3, 2, 2, 2, 2));
    lemma_tm(p, -144, 1, 1, 2, 2, 1, 1, 1, 1, 0, 2, 0, 1, 1, 0, 0);
    assert(t2 * s6 == (-144) * mn(p, 1, 3, 2, 3, 2, 1, 1));
    lemma_tm(p, -144, 1, 1, 2, 2, 1, 1, 1, 3, 0, 1, 1, 2, 0, 0, 0);
    assert(t2 * s7 == (-432) * mn(p, 1, 2, 3, 4, 1, 1, 1));
    lemma_tm(p, -144, 1, 1, 2, 2, 1, 1, 1, -6, 0, 1, 1, 1, 0, 1, 1);
    assert(t2 * s8 == (864) * mn(p, 1, 2, 3, 3, 1, 2, 2));
    lemma_tm(p, -144, 1, 1, 2, 2, 1, 1, 1, 9, 0, 1, 1, 0, 0, 2, 0);
    assert(t2 * s9 == (-1296) * mn(p, 1, 2, 3, 2, 1, 3, 1));
    lemma_tm(p, -144, 1, 1, 2, 2, 1, 1, 1, -3, 0, 0, 2, 1, 1, 0, 1);
    assert(t2 * s10 == (432) * mn(p, 1, 1, 4, 3, 2, 1, 2));
    lemma_tm(p, -144, 1, 1, 2, 2, 1, 1, 1, 9, 0, 0, 2, 0, 1, 1, 0);
    assert(t2 * s11 == (-1296) * mn(p, 1, 1, 4, 2, 2, 2, 1));
    assert(t2 * q == (-432) * mn(p, 3, 1, 2, 2, 2, 2, 1) + (-864) * mn(p, 2, 2, 2, 3, 1, 2, 1) + (-144) * mn(p, 2, 2, 2, 2, 3, 1, 1) + (432) * mn(p, 2, 2, 2, 2, 1, 3, 2) + (-864) * mn(p, 2, 1, 3, 3, 2, 1, 1) + (864) * mn(p, 2, 1, 3, 2, 2, 2, 2) + (-144) * mn(p, 1, 3, 2, 3, 2, 1, 1) + (-432) * mn(p, 1, 2, 3, 4, 1, 1, 1) + (864) * mn(p, 1, 2, 3, 3, 1, 2, 2) + (-1296) * mn(p, 1, 2, 3, 2, 1, 3, 1) + (432) * mn(p, 1, 1, 4, 3, 2, 1, 2) + (-1296) * mn(p, 1, 1, 4, 2, 2, 2, 1));
    lemma_tm(p, -6, 1, 1, 2, 1, 3, 0, 1, 3, 2, 0, 0, 0, 1, 1, 0);
    assert(t3 * s0 == (-18) * mn(p, 3, 1, 2, 1, 4, 1, 1));
    lemma_tm(p, -6, 1, 1, 2, 1, 3, 0, 1, 6, 1, 1, 0, 1, 0, 1, 0);
    assert(t3 * s1 == (-36) * mn(p, 2, 2, 2, 2, 3, 1, 1));
    lemma_tm(p, -6, 1, 1, 2, 1, 3, 0, 1, 1, 1, 1, 0, 0, 2, 0, 0);
    assert(t3 * s2 == (-6) * mn(p, 2, 2, 2, 1, 5, 0, 1));
    lemma_tm(p, -6, 1, 1, 2, 1, 3, 0, 1, -3, 1, 1, 0, 0, 0, 2, 1);
    assert(t3 * s3 == (18) * mn(p, 2, 2, 2, 1, 3, 2, 2));
    lemma_tm(p, -6, 1, 1, 2, 1, 3, 0, 1, 6, 1, 0, 1, 1, 1, 0, 0);
    assert(t3 * s4 == (-36) * mn(p, 2, 1, 3, 2, 4, 0, 1));
    lemma_tm(p, -6, 1, 1, 2, 1, 3, 0, 1, -6, 1, 0, 1, 0, 1, 1, 1);
    assert(t3 * s5 == (36) * mn(p, 2, 1, 3, 1, 4, 1, 2));
    lemma_tm(p, -6, 1, 1, 2, 1, 3, 0, 1, 1, 0, 2, 0, 1, 1, 0, 0);
    assert(t3 * s6 == (-6) * mn(p, 1, 3, 2, 2, 4, 0, 1));
    lemma_tm(p, -6, 1, 1, 2, 1, 3, 0, 1, 3, 0, 1, 1, 2, 0, 0, 0);
    assert(t3 * s7 == (-18) * mn(p, 1, 2, 3, 3, 3, 0, 1));
    lemma_tm(p, -6, 1, 1, 2, 1, 3, 0, 1, -6, 0, 1, 1, 1, 0, 1, 1);
    assert(t3 * s8 == (36) * mn(p, 1, 2, 3, 2, 3, 1, 2));
    lemma_tm(p, -6, 1, 1, 2, 1, 3, 0, 1, 9, 0, 1, 1, 0, 0, 2, 0);
    assert(t3 * s9 == (-54) * mn(p, 1, 2, 3, 1, 3, 2, 1));
    lemma_tm(p, -6, 1, 1, 2, 1, 3, 0, 1, -3, 0, 0, 2, 1, 1, 0, 1);
    assert(t3 * s10 == (18) * mn(p, 1, 1, 4, 2, 4, 0, 2));
    lemma_tm(p, -6, 1, 1, 2, 1, 3, 0, 1, 9, 0, 0, 2, 0, 1, 1, 0);
    assert(t3 * s11 == (-54) * mn(p, 1, 1, 4, 1, 4, 1, 1));
    assert(t3 * q == (-18) * mn(p, 3, 1, 2, 1, 4, 1, 1) + (-36) * mn(p, 2, 2, 2, 2, 3, 1, 1) + (-6) * mn(p, 2, 2, 2, 1, 5, 0, 1) + (18) * mn(p, 2, 2, 2, 1, 3, 2, 2) + (-36) * mn(p, 2, 1, 3, 2, 4, 0, 1) + (36) * mn(p, 2, 1, 3, 1, 4, 1, 2) + (-6) * mn(p, 1, 3, 2, 2, 4, 0, 1) + (-18) * mn(p, 1, 2, 3, 3, 3, 0, 1) + (36) * mn(p, 1, 2, 3, 2, 3, 1, 2) + (-54) * mn(p, 1, 2, 3, 1, 3, 2, 1) + (18) * mn(p, 1, 1, 4, 2, 4, 0, 2) + (-54) * mn(p, 1, 1, 4, 1, 4, 1, 1));
    lemma_tm(p, 90, 1, 1, 2, 1, 1, 2, 2, 3, 2, 0, 0, 0, 1, 1, 0);
    assert(t4 * s0 == (270) * mn(p, 3, 1, 2, 1, 2, 3, 2));
    lemma_tm(p, 90, 1, 1, 2, 1, 1, 2, 2, 6, 1, 1, 0, 1, 0, 1, 0);
    assert(t4 * s1 == (540) * mn(p, 2, 2, 2, 2, 1, 3, 2));
    lemma_tm(p, 90, 1, 1, 2, 1, 1, 2, 2, 1, 1, 1, 0, 0, 2, 0, 0);
    assert(t4 * s2 == (90) * mn(p, 2, 2, 2, 1, 3, 2, 2));
    lemma_tm(p, 90, 1, 1, 2, 1, 1, 2, 2, -3, 1, 1, 0, 0, 0, 2, 1);
    assert(t4 * s3 == (-270) * mn(p, 2, 2, 2, 1, 1, 4, 3));
    lemma_tm(p, 90, 1, 1, 2, 1, 1, 2, 2, 6, 1, 0, 1, 1, 1, 0, 0);
    assert(t4 * s4 == (540) * mn(p, 2, 1, 3, 2, 2, 2, 2));
    lemma_tm(p, 90, 1, 1, 2, 1, 1, 2, 2, -6, 1, 0, 1, 0, 1, 1, 1);
    assert(t4 * s5 == (-540) * mn(p, 2, 1, 3, 1, 2, 3, 3));
    lemma_tm(p, 90, 1, 1, 2, 1, 1, 2, 2, 1, 0, 2, 0, 1, 1, 0, 0);
    assert(t4 * s6 == (90) * mn(p, 1, 3, 2, 2, 2, 2, 2));
    lemma_tm(p, 90, 1, 1, 2, 1, 1, 2, 2, 3, 0, 1, 1, 2, 0, 0, 0);
    assert(t4 * s7 == (270) * mn(p, 1, 2, 3, 3, 1, 2, 2));
    lemma_tm(p, 90, 1, 1, 2, 1, 1, 2, 2, -6, 0, 1, 1, 1, 0, 1, 1);
    assert(t4 * s8 == (-540) * mn(p, 1, 2, 3, 2, 1, 3, 3));
    lemma_tm(p, 90, 1, 1, 2, 1, 1, 2, 2, 9, 0, 1, 1, 0, 0, 2, 0);
    assert(t4 * s9 == (810) * mn(p, 1, 2, 3, 1, 1, 4, 2));
    lemma_tm(p, 90, 1, 1, 2, 1, 1, 2, 2, -3, 0, 0, 2, 1, 1, 0, 1);
    assert(t4 * s10 == (-270) * mn(p, 1, 1, 4, 2, 2, 2, 3));
    lemma_tm(p, 90, 1, 1, 2, 1, 1, 2, 2, 9, 0, 0, 2, 0, 1, 1, 0);
    assert(t4 * s11 == (810) * mn(p, 1, 1, 4, 1, 2, 3, 2));
    assert(t4 * q == (270) * mn(p, 3, 1, 2, 1, 2, 3, 2) + (540) * mn(p, 2, 2, 2, 2, 1, 3, 2) + (90) * mn(p, 2, 2, 2, 1, 3, 2, 2) + (-270) * mn(p, 2, 2, 2, 1, 1, 4, 3) + (540) * mn(p, 2, 1, 3, 2, 2, 2, 2) + (-540) * mn(p, 2, 1, 3, 1, 2, 3, 3) + (90) * mn(p, 1, 3, 2, 2, 2, 2, 2) + (270) * mn(p, 1, 2, 3, 3, 1, 2, 2) + (-540) * mn(p, 1, 2, 3, 2, 1, 3, 3) + (810) * mn(p, 1, 2, 3, 1, 1, 4, 2) + (-270) * mn(p, 1, 1, 4, 2, 2, 2, 3) + (810) * mn(p, 1, 1, 4, 1, 2, 3, 2));
    lemma_tm(p, 216, 1, 1, 2, 1, 1, 2, 0, 3, 2, 0, 0, 0, 1, 1, 0);
    assert(t5 * s0 == (648) * mn(p, 3, 1, 2, 1, 2, 3, 0));
    lemma_tm(p, 216, 1, 1, 2, 1, 1, 2, 0, 6, 1, 1, 0, 1, 0, 1, 0);
    assert(t5 * s1 == (1296) * mn(p, 2, 2, 2, 2, 1, 3, 0));
    lemma_tm(p, 216, 1, 1, 2, 1, 1, 2, 0, 1, 1, 1, 0, 0, 2, 0, 0);
    assert(t5 * s2 == (216) * mn(p, 2, 2, 2, 1, 3, 2, 0));
    lemma_tm(p, 216, 1, 1, 2, 1, 1, 2, 0, -3, 1, 1, 0, 0, 0, 2, 1);
    assert(t5 * s3 == (-648) * mn(p, 2, 2, 2, 1, 1, 4, 1));
    lemma_tm(p, 216, 1, 1, 2, 1, 1, 2, 0, 6, 1, 0, 1, 1, 1, 0, 0);
    assert(t5 * s4 == (1296) * mn(p, 2, 1, 3, 2, 2, 2, 0));
    lemma_tm(p, 216, 1, 1, 2, 1, 1, 2, 0, -6, 1, 0, 1, 0, 1, 1, 1);
    assert(t5 * s5 == (-1296) * mn(p, 2, 1, 3, 1, 2, 3, 1));
    lemma_tm(p, 216, 1, 1, 2, 1, 1, 2, 0, 1, 0, 2, 0, 1, 1, 0, 0);
    assert(t5 * s6 == (216) * mn(p, 1, 3, 2, 2, 2, 2, 0));
    lemma_tm(p, 216, 1, 1, 2, 1, 1, 2, 0, 3, 0, 1, 1, 2, 0, 0, 0);
    assert(t5 * s7 == (648) * mn(p, 1, 2, 3, 3, 1, 2, 0));
    lemma_tm(p, 216, 1, 1, 2, 1, 1, 2, 0, -6, 0, 1, 1, 1, 0, 1, 1);
    assert(t5 * s8 == (-1296) * mn(p, 1, 2, 3, 2, 1, 3, 1));
    lemma_tm(p, 216, 1, 1, 2, 1, 1, 2, 0, 9, 0, 1, 1, 0, 0, 2, 0);
    assert(t5 * s9 == (1944) * mn(p, 1, 2, 3, 1, 1, 4, 0));
    lemma_tm(p, 216, 1, 1, 2, 1, 1, 2, 0, -3, 0, 0, 2, 1, 1, 0, 1);
    assert(t5 * s10 == (-648) * mn(p, 1, 1, 4, 2, 2, 2, 1));
    lemma_tm(p, 216, 1, 1, 2, 1, 1, 2, 0, 9, 0, 0, 2, 0, 1, 1, 0);
    assert(t5 * s11 == (1944) * mn(p, 1, 1, 4, 1, 2, 3, 0));
    assert(t5 * q == (648) * mn(p, 3, 1, 2, 1, 2, 3, 0) + (1296) * mn(p, 2, 2, 2, 2, 1, 3, 0) + (216) * mn(p, 2, 2, 2, 1, 3, 2, 0) + (-648) * mn(p, 2, 2, 2, 1, 1, 4, 1) + (1296) * mn(p, 2, 1, 3, 2, 2, 2, 0) + (-1296) * mn(p, 2, 1, 3, 1, 2, 3, 1) + (216) * mn(p, 1, 3, 2, 2, 2, 2, 0) + (648) * mn(p, 1, 2, 3, 3, 1, 2, 0) + (-1296) * mn(p, 1, 2, 3, 2, 1, 3, 1) + (1944) * mn(p, 1, 2, 3, 1, 1, 4, 0) + (-648) * mn(p, 1, 1, 4, 2, 2, 2, 1) + (1944) * mn(p, 1, 1, 4, 1, 2, 3, 0));
    lemma_tm(p, 18, 1, 1, 2, 0, 3, 1, 0, 3, 2, 0, 0, 0, 1, 1, 0);
    assert(t6 * s0 == (54) * mn(p, 3, 1, 2, 0, 4, 2, 0));
    lemma_tm(p, 18, 1, 1, 2, 0, 3, 1, 0, 6, 1, 1, 0, 1, 0, 1, 0);
    assert(t6 * s1 == (108) * mn(p, 2, 2, 2, 1, 3, 2, 0));
    lemma_tm(p, 18, 1, 1, 2, 0, 3, 1, 0, 1, 1, 1, 0, 0, 2, 0, 0);
    assert(t6 * s2 == (18) * mn(p, 2, 2, 2, 0, 5, 1, 0));
    lemma_tm(p, 18, 1, 1, 2, 0, 3, 1, 0, -3, 1, 1, 0, 0, 0, 2, 1);
    assert(t6 * s3 == (-54) * mn(p, 2, 2, 2, 0, 3, 3, 1));
    lemma_tm(p, 18, 1, 1, 2, 0, 3, 1, 0, 6, 1, 0, 1, 1, 1, 0, 0);
    assert(t6 * s4 == (108) * mn(p, 2, 1, 3, 1, 4, 1, 0));
    lemma_tm(p, 18, 1, 1, 2, 0, 3, 1, 0, -6, 1, 0, 1, 0, 1, 1, 1);
    assert(t6 * s5 == (-108) * mn(p, 2, 1, 3, 0, 4, 2, 1));
    lemma_tm(p, 18, 1, 1, 2, 0, 3, 1, 0, 1, 0, 2, 0, 1, 1, 0, 0);
    assert(t6 * s6 == (18) * mn(p, 1, 3, 2, 1, 4, 1, 0));
    lemma_tm(p, 18, 1, 1, 2, 0, 3, 1, 0, 3, 0, 1, 1, 2, 0, 0, 0);
    assert(t6 * s7 == (54) * mn(p, 1, 2, 3, 2, 3, 1, 0));
    lemma_tm(p, 18, 1, 1, 2, 0, 3, 1, 0, -6, 0, 1, 1, 1, 0, 1, 1);
    assert(t6 * s8 == (-108) * mn(p, 1, 2, 3, 1, 3, 2, 1));
    lemma_tm(p, 18, 1, 1, 2, 0, 3, 1, 0, 9, 0, 1, 1, 0, 0, 2, 0);
    assert(t6 * s9 == (162) * mn(p, 1, 2, 3, 0, 3, 3, 0));
    lemma_tm(p, 18, 1, 1, 2, 0, 3, 1, 0, -3, 0, 0, 2, 1, 1, 0, 1);
    assert(t6 * s10 == (-54) * mn(p, 1, 1, 4, 1, 4, 1, 1));
    lemma_tm(p, 18, 1, 1, 2, 0, 3, 1, 0, 9, 0, 0, 2, 0, 1, 1, 0);
    assert(t6 * s11 == (162) * mn(p, 1, 1, 4, 0, 4, 2, 0));
    assert(t6 * q == (54) * mn(p, 3, 1, 2, 0, 4, 2, 0) + (108) * mn(p, 2, 2, 2, 1, 3, 2, 0) + (18) * mn(p, 2, 2, 2, 0, 5, 1, 0) + (-54) * mn(p, 2, 2, 2, 0, 3, 3, 1) + (108) * mn(p, 2, 1, 3, 1, 4, 1, 0) + (-108) * mn(p, 2, 1, 3, 0, 4, 2, 1) + (18) * mn(p, 1, 3, 2, 1, 4, 1, 0) + (54) * mn(p, 1, 2, 3, 2, 3, 1, 0) + (-108) * mn(p, 1, 2, 3, 1, 3, 2, 1) + (162) * mn(p, 1, 2, 3, 0, 3, 3, 0) + (-54) * mn(p, 1, 1, 4, 1, 4, 1, 1) + (162) * mn(p, 1, 1, 4, 0, 4, 2, 0));
    lemma_tm(p, -162, 1, 1, 2, 0, 1, 3, 1, 3, 2, 0, 0, 0, 1, 1, 0);
    assert(t7 * s0 == (-486) * mn(p, 3, 1, 2, 0, 2, 4, 1));
    lemma_tm(p, -162, 1, 1, 2, 0, 1, 3, 1, 6, 1, 1, 0, 1, 0, 1, 0);
    assert(t7 * s1 == (-972) * mn(p, 2, 2, 2, 1, 1, 4, 1));
    lemma_tm(p, -162, 1, 1, 2, 0, 1, 3, 1, 1, 1, 1, 0, 0, 2, 0, 0);
    assert(t7 * s2 == (-162) * mn(p, 2, 2, 2, 0, 3, 3, 1));
    lemma_tm(p, -162, 1, 1, 2, 0, 1, 3, 1, -3, 1, 1, 0, 0, 0, 2, 1);
    assert(t7 * s3 == (486) * mn(p, 2, 2, 2, 0, 1, 5, 2));
    lemma_tm(p, -162, 1, 1, 2, 0, 1, 3, 1, 6, 1, 0, 1, 1, 1, 0, 0);
    assert(t7 * s4 == (-972) * mn(p, 2, 1, 3, 1, 2, 3, 1));
    lemma_tm(p, -162, 1, 1, 2, 0, 1, 3, 1, -6, 1, 0, 1, 0, 1, 1, 1);
    assert(t7 * s5 == (972) * mn(p, 2, 1, 3, 0, 2, 4, 2));
    lemma_tm(p, -162, 1, 1, 2, 0, 1, 3, 1, 1, 0, 2, 0, 1, 1, 0, 0);
    assert(t7 * s6 == (-162) * mn(p, 1, 3, 2, 1, 2, 3, 1));
    lemma_tm(p, -162, 1, 1, 2, 0, 1, 3, 1, 3, 0, 1, 1, 2, 0, 0, 0);
    assert(t7 * s7 == (-486) * mn(p, 1, 2, 3, 2, 1, 3, 1));
    lemma_tm(p, -162, 1, 1, 2, 0, 1, 3, 1, -6, 0, 1, 1, 1, 0, 1, 1);
    assert(t7 * s8 == (972) * mn(p, 1, 2, 3, 1, 1, 4, 2));
    lemma_tm(p, -162, 1, 1, 2, 0, 1, 3, 1, 9, 0, 1, 1, 0, 0, 2, 0);
    assert(t7 * s9 == (-1458) * mn(p, 1, 2, 3, 0, 1, 5, 1));
    lemma_tm(p, -162, 1, 1, 2, 0, 1, 3, 1, -3, 0, 0, 2, 1, 1, 0, 1);
    assert(t7 * s10 == (486) * mn(p, 1, 1, 4, 1, 2, 3, 2));
    lemma_tm(p, -162, 1, 1, 2, 0, 1, 3, 1, 9, 0, 0, 2, 0, 1, 1, 0);
    assert(t7 * s11 == (-1458) * mn(p, 1, 1, 4, 0, 2, 4, 1));
    assert(t7 * q == (-486) * mn(p, 3, 1, 2, 0, 2, 4, 1) + (-972) * mn(p, 2, 2, 2, 1, 1, 4, 1) + (-162) * mn(p, 2, 2, 2, 0, 3, 3, 1) + (486) * mn(p, 2, 2, 2, 0, 1, 5, 2) + (-972) * mn(p, 2, 1, 3, 1, 2, 3, 1) + (972) * mn(p, 2, 1, 3, 0, 2, 4, 2) + (-162) * mn(p, 1, 3, 2, 1, 2, 3, 1) + (-486) * mn(p, 1, 2, 3, 2, 1, 3, 1) + (972) * mn(p, 1, 2, 3, 1, 1, 4, 2) + (-1458) * mn(p, 1, 2, 3, 0, 1, 5, 1) + (486) * mn(p, 1, 1, 4, 1, 2, 3, 2) + (-1458) * mn(p, 1, 1, 4, 0, 2, 4, 1));
    lemma_tm(p, -36, 1, 0, 3, 2, 2, 0, 1, 3, 2, 0, 0, 0, 1, 1, 0);
    assert(t8 * s0 == (-108) * mn(p, 3, 0, 3, 2, 3, 1, 1));
    lemma_tm(p, -36, 1, 0, 3, 2, 2, 0, 1, 6, 1, 1, 0, 1, 0, 1, 0);
    assert(t8 * s1 == (-216) * mn(p, 2, 1, 3, 3, 2, 1, 1));
    lemma_tm(p, -36, 1, 0, 3, 2, 2, 0, 1, 1, 1, 1, 0, 0, 2, 0, 0);
    assert(t8 * s2 == (-36) * mn(p, 2, 1, 3, 2, 4, 0, 1));
    lemma_tm(p, -36, 1, 0, 3, 2, 2, 0, 1, -3, 1, 1, 0, 0, 0, 2, 1);
    assert(t8 * s3 == (108) * mn(p, 2, 1, 3, 2, 2, 2, 2));
    lemma_tm(p, -36, 1, 0, 3, 2, 2, 0, 1, 6, 1, 0, 1, 1, 1, 0, 0);
    assert(t8 * s4 == (-216) * mn(p, 2, 0, 4, 3, 3, 0, 1));
    lemma_tm(p, -36, 1, 0, 3, 2, 2, 0, 1, -6, 1, 0, 1, 0, 1, 1, 1);
    assert(t8 * s5 == (216) * mn(p, 2, 0, 4, 2, 3, 1, 2));
    lemma_tm(p, -36, 1, 0, 3, 2, 2, 0, 1, 1, 0, 2, 0, 1, 1, 0, 0);
    assert(t8 * s6 == (-36) * mn(p, 1, 2, 3, 3, 3, 0, 1));
    lemma_tm(p, -36, 1, 0, 3, 2, 2, 0, 1, 3, 0, 1, 1, 2, 0, 0, 0);
    assert(t8 * s7 == (-108) * mn(p, 1, 1, 4, 4, 2, 0, 1));
    lemma_tm(p, -36, 1, 0, 3, 2, 2, 0, 1, -6, 0, 1, 1, 1, 0, 1, 1);
    assert(t8 * s8 == (216) * mn(p, 1, 1, 4, 3, 2, 1, 2));
    lemma_tm(p, -36, 1, 0, 3, 2, 2, 0, 1, 9, 0, 1, 1, 0, 0, 2, 0);
    assert(t8 * s9 == (-324) * mn(p, 1, 1, 4, 2, 2, 2, 1));
    lemma_tm(p, -36, 1, 0, 3, 2, 2, 0, 1, -3, 0, 0, 2, 1, 1, 0, 1);
    assert(t8 * s10 == (108) * mn(p, 1, 0, 5, 3, 3, 0, 2));
    lemma_tm(p, -36, 1, 0, 3, 2, 2, 0, 1, 9, 0, 0, 2, 0, 1, 1, 0);
    assert(t8 * s11 == (-324) * mn(p, 1, 0, 5, 2, 3, 1, 1));
    assert(t8 * q == (-108) * mn(p, 3, 0, 3, 2, 3, 1, 1) + (-216) * mn(p, 2, 1, 3, 3, 2, 1, 1) + (-36) * mn(p, 2, 1, 3, 2, 4, 0, 1) + (108) * mn(p, 2, 1, 3, 2, 2, 2, 2) + (-216) * mn(p, 2, 0, 4, 3, 3, 0, 1) + (216) * mn(p, 2, 0, 4, 2, 3, 1, 2) + (-36) * mn(p, 1, 2, 3, 3, 3, 0, 1) + (-108) * mn(p, 1, 1, 4, 4, 2, 0, 1) + (216) * mn(p, 1, 1, 4, 3, 2, 1, 2) + (-324) * mn(p, 1, 1, 4, 2, 2, 2, 1) + (108) * mn(p, 1, 0, 5, 3, 3, 0, 2) + (-324) * mn(p, 1, 0, 5, 2, 3, 1, 1));
    lemma_tm(p, 36, 1, 0, 3, 1, 2, 1, 2, 3, 2, 0, 0, 0, 1, 1, 0);
    assert(t9 * s0 == (108) * mn(p, 3, 0, 3, 1, 3, 2, 2));
    lemma_tm(p, 36, 1, 0, 3, 1, 2, 1, 2, 6, 1, 1, 0, 1, 0, 1, 0);
    assert(t9 * s1 == (216) * mn(p, 2, 1, 3, 2, 2, 2, 2));
    lemma_tm(p, 36, 1, 0, 3, 1, 2, 1, 2, 1, 1, 1, 0, 0, 2, 0, 0);
    assert(t9 * s2 == (36) * mn(p, 2, 1, 3, 1, 4, 1, 2));
    lemma_tm(p, 36, 1, 0, 3, 1, 2, 1, 2, -3, 1, 1, 0, 0, 0, 2, 1);
    assert(t9 * s3 == (-108) * mn(p, 2, 1, 3, 1, 2, 3, 3));
    lemma_tm(p, 36, 1, 0, 3, 1, 2, 1, 2, 6, 1, 0, 1, 1, 1, 0, 0);
    assert(t9 * s4 == (216) * mn(p, 2, 0, 4, 2, 3, 1, 2));
    lemma_tm(p, 36, 1, 0, 3, 1, 2, 1, 2, -6, 1, 0, 1, 0, 1, 1, 1);
    assert(t9 * s5 == (-216) * mn(p, 2, 0, 4, 1, 3, 2, 3));
    lemma_tm(p, 36, 1, 0, 3, 1, 2, 1, 2, 1, 0, 2, 0, 1, 1, 0, 0);
    assert(t9 * s6 == (36) * mn(p, 1, 2, 3, 2, 3, 1, 2));
    lemma_tm(p, 36, 1, 0, 3, 1, 2, 1, 2, 3, 0, 1, 1, 2, 0, 0, 0);
    assert(t9 * s7 == (108) * mn(p, 1, 1, 4, 3, 2, 1, 2));
    lemma_tm(p, 36, 1, 0, 3, 1, 2, 1, 2, -6, 0, 1, 1, 1, 0, 1, 1);
    assert(t9 * s8 == (-216) * mn(p, 1, 1, 4, 2, 2, 2, 3));
    lemma_tm(p, 36, 1, 0, 3, 1, 2, 1, 2, 9, 0, 1, 1, 0, 0, 2, 0);
    assert(t9 * s9 == (324) * mn(p, 1, 1, 4, 1, 2, 3, 2));
    lemma_tm(p, 36, 1, 0, 3, 1, 2, 1, 2, -3, 0, 0, 2, 1, 1, 0, 1);
    assert(t9 * s10 == (-108) * mn(p, 1, 0, 5, 2, 3, 1, 3));
    lemma_tm(p, 36, 1, 0, 3, 1, 2, 1, 2, 9, 0, 0, 2, 0, 1, 1, 0);
    assert(t9 * s11 == (324) * mn(p, 1, 0, 5, 1, 3, 2, 2));
    assert(t9 * q == (108) * mn(p, 3, 0, 3, 1, 3, 2, 2) + (216) * mn(p, 2, 1, 3, 2, 2, 2, 2) + (36) * mn(p, 2, 1, 3, 1, 4, 1, 2) + (-108) * mn(p, 2, 1, 3, 1, 2, 3, 3) + (216) * mn(p, 2, 0, 4, 2, 3, 1, 2) + (-216) * mn(p, 2, 0, 4, 1, 3, 2, 3) + (36) * mn(p, 1, 2, 3, 2, 3, 1, 2) + (108) * mn(p, 1, 1, 4, 3, 2, 1, 2) + (-216) * mn(p, 1, 1, 4, 2, 2, 2, 3) + (324) * mn(p, 1, 1, 4, 1, 2, 3, 2) + (-108) * mn(p, 1, 0, 5, 2, 3, 1, 3) + (324) * mn(p, 1, 0, 5, 1, 3, 2, 2));
    lemma_tm(p, 108, 1, 0, 3, 1, 2, 1, 0, 3, 2, 0, 0, 0, 1, 1, 0);
    assert(t10 * s0 == (324) * mn(p, 3, 0, 3, 1, 3, 2, 0));
    lemma_tm(p, 108, 1, 0, 3, 1, 2, 1, 0, 6, 1, 1, 0, 1, 0, 1, 0);
    assert(t10 * s1 == (648) * mn(p, 2, 1, 3, 2, 2, 2, 0));
    lemma_tm(p, 108, 1, 0, 3, 1, 2, 1, 0, 1, 1, 1, 0, 0, 2, 0, 0);
    assert(t10 * s2 == (108) * mn(p, 2, 1, 3, 1, 4, 1, 0));
    lemma_tm(p, 108, 1, 0, 3, 1, 2, 1, 0, -3, 1, 1, 0, 0, 0, 2, 1);
    assert(t10 * s3 == (-324) * mn(p, 2, 1, 3, 1, 2, 3, 1));
    lemma_tm(p, 108, 1, 0, 3, 1, 2, 1, 0, 6, 1, 0, 1, 1, 1, 0, 0);
    assert(t10 * s4 == (648) * mn(p, 2, 0, 4, 2, 3, 1, 0));
    lemma_tm(p, 108, 1, 0, 3, 1, 2, 1, 0, -6, 1, 0, 1, 0, 1, 1, 1);
    assert(t10 * s5 == (-648) * mn(p, 2, 0, 4, 1, 3, 2, 1));
    lemma_tm(p, 108, 1, 0, 3, 1, 2, 1, 0, 1, 0, 2, 0, 1, 1, 0, 0);
    assert(t10 * s6 == (108) * mn(p, 1, 2, 3, 2, 3, 1, 0));
    lemma_tm(p, 108, 1, 0, 3, 1, 2, 1, 0, 3, 0, 1, 1, 2, 0, 0, 0);
    assert(t10 * s7 == (324) * mn(p, 1, 1, 4, 3, 2, 1, 0));
    lemma_tm(p, 108, 1, 0, 3, 1, 2, 1, 0, -6, 0, 1, 1, 1, 0, 1, 1);
    assert(t10 * s8 == (-648) * mn(p, 1, 1, 4, 2, 2, 2, 1));
    lemma_tm(p, 108, 1, 0, 3, 1, 2, 1, 0, 9, 0, 1, 1, 0, 0, 2, 0);
    assert(t10 * s9 == (972) * mn(p, 1, 1, 4, 1, 2, 3, 0));
    lemma_tm(p, 108, 1, 0, 3, 1, 2, 1, 0, -3, 0, 0, 2, 1, 1, 0, 1);
    assert(t10 * s10 == (-324) * mn(p, 1, 0, 5, 2, 3, 1, 1));
    lemma_tm(p, 108, 1, 0, 3, 1, 2, 1, 0, 9, 0, 0, 2, 0, 1, 1, 0);
    assert(t10 * s11 == (972) * mn(p, 1, 0, 5, 1, 3, 2, 0));
    assert(t10 * q == (324) * mn(p, 3, 0, 3, 1, 3, 2, 0) + (648) * mn(p, 2, 1, 3, 2, 2, 2, 0) + (108) * mn(p, 2, 1, 3, 1, 4, 1, 0) + (-324) * mn(p, 2, 1, 3, 1, 2, 3, 1) + (648) * mn(p, 2, 0, 4, 2, 3, 1, 0) + (-648) * mn(p, 2, 0, 4, 1, 3, 2, 1) + (108) * mn(p, 1, 2, 3, 2, 3, 1, 0) + (324) * mn(p, 1, 1, 4, 3, 2, 1, 0) + (-648) * mn(p, 1, 1, 4, 2, 2, 2, 1) + (972) * mn(p, 1, 1, 4, 1, 2, 3, 0) + (-324) * mn(p, 1, 0, 5, 2, 3, 1, 1) + (972) * mn(p, 1, 0, 5, 1, 3, 2, 0));
    lemma_tm(p, -108, 1, 0, 3, 0, 2, 2, 1, 3, 2, 0, 0, 0, 1, 1, 0);
    assert(t11 * s0 == (-324) * mn(p, 3, 0, 3, 0, 3, 3, 1));
    lemma_tm(p, -108, 1, 0, 3, 0, 2, 2, 1, 6, 1, 1, 0, 1, 0, 1, 0);
    assert(t11 * s1 == (-648) * mn(p, 2, 1, 3, 1, 2, 3, 1));
    lemma_tm(p, -108, 1, 0, 3, 0, 2, 2, 1, 1, 1, 1, 0, 0, 2, 0, 0);
    assert(t11 * s2 == (-108) * mn(p, 2, 1, 3, 0, 4, 2, 1));
    lemma_tm(p, -108, 1, 0, 3, 0, 2, 2, 1, -3, 1, 1, 0, 0, 0, 2, 1);
    assert(t11 * s3 == (324) * mn(p, 2, 1, 3, 0, 2, 4, 2));
    lemma_tm(p, -108, 1, 0, 3, 0, 2, 2, 1, 6, 1, 0, 1, 1, 1, 0, 0);
    assert(t11 * s4 == (-648) * mn(p, 2, 0, 4, 1, 3, 2, 1));
    lemma_tm(p, -108, 1, 0, 3, 0, 2, 2, 1, -6, 1, 0, 1, 0, 1, 1, 1);
    assert(t11 * s5 == (648) * mn(p, 2, 0, 4, 0, 3, 3, 2));
    lemma_tm(p, -108, 1, 0, 3, 0, 2, 2, 1, 1, 0, 2, 0, 1, 1, 0, 0);
    assert(t11 * s6 == (-108) * mn(p, 1, 2, 3, 1, 3, 2, 1));
    lemma_tm(p, -108, 1, 0, 3, 0, 2, 2, 1, 3, 0, 1, 1, 2, 0, 0, 0);
    assert(t11 * s7 == (-324) * mn(p, 1, 1, 4, 2, 2, 2, 1));
    lemma_tm(p, -108, 1, 0, 3, 0, 2, 2, 1, -6, 0, 1, 1, 1, 0, 1, 1);
    assert(t11 * s8 == (648) * mn(p, 1, 1, 4, 1, 2, 3, 2));
    lemma_tm(p, -108, 1, 0, 3, 0, 2, 2, 1, 9, 0, 1, 1, 0, 0, 2, 0);
    assert(t11 * s9 == (-972) * mn(p, 1, 1, 4, 0, 2, 4, 1));
    lemma_tm(p, -108, 1, 0, 3, 0, 2, 2, 1, -3, 0, 0, 2, 1, 1, 0, 1);
    assert(t11 * s10 == (324) * mn(p, 1, 0, 5, 1, 3, 2, 2));
    lemma_tm(p, -108, 1, 0, 3, 0, 2, 2, 1, 9, 0, 0, 2, 0, 1, 1, 0);
    assert(t11 * s11 == (-972) * mn(p, 1, 0, 5, 0, 3, 3, 1));
    assert(t11 * q == (-324) * mn(p, 3, 0, 3, 0, 3, 3, 1) + (-648) * mn(p, 2, 1, 3, 1, 2, 3, 1) + (-108) * mn(p, 2, 1, 3, 0, 4, 2, 1) + (324) * mn(p, 2, 1, 3, 0, 2, 4, 2) + (-648) * mn(p, 2, 0, 4, 1, 3, 2, 1) + (648) * mn(p, 2, 0, 4, 0, 3, 3, 2) + (-108) * mn(p, 1, 2, 3, 1, 3, 2, 1) + (-324) * mn(p, 1, 1, 4, 2, 2, 2, 1) + (648) * mn(p, 1, 1, 4, 1, 2, 3, 2) + (-972) * mn(p, 1, 1, 4, 0, 2, 4, 1) + (324) * mn(p, 1, 0, 5, 1, 3, 2, 2) + (-972) * mn(p, 1, 0, 5, 0, 3, 3, 1));
    lemma_tm(p, 1, 0, 4, 0, 2, 2, 0, 0, 3, 2, 0, 0, 0, 1, 1, 0);
    assert(t12 * s0 == (3) * mn(p, 2, 4, 0, 2, 3, 1, 0));
    lemma_tm(p, 1, 0, 4, 0, 2, 2, 0, 0, 6, 1, 1, 0, 1, 0, 1, 0);
    assert(t12 * s1 == (6) * mn(p, 1, 5, 0, 3, 2, 1, 0));
    lemma_tm(p, 1, 0, 4, 0, 2, 2, 0, 0, 1, 1, 1, 0, 0, 2, 0, 0);
    assert(t12 * s2 == (1) * mn(p, 1, 5, 0, 2, 4, 0, 0));
    lemma_tm(p, 1, 0, 4, 0, 2, 2, 0, 0, -3, 1, 1, 0, 0, 0, 2, 1);
    assert(t12 * s3 == (-3) * mn(p, 1, 5, 0, 2, 2, 2, 1));
    lemma_tm(p, 1, 0, 4, 0, 2, 2, 0, 0, 6, 1, 0, 1, 1, 1, 0, 0);
    assert(t12 * s4 == (6) * mn(p, 1, 4, 1, 3, 3, 0, 0));
    lemma_tm(p, 1, 0, 4, 0, 2, 2, 0, 0, -6, 1, 0, 1, 0, 1, 1, 1);
    assert(t12 * s5 == (-6) * mn(p, 1, 4, 1, 2, 3, 1, 1));
    lemma_tm(p, 1, 0, 4, 0, 2, 2, 0, 0, 1, 0, 2, 0, 1, 1, 0, 0);
    assert(t12 * s6 == (1) * mn(p, 0, 6, 0, 3, 3, 0, 0));
    lemma_tm(p, 1, 0, 4, 0, 2, 2, 0, 0, 3, 0, 1, 1, 2, 0, 0, 0);
    assert(t12 * s7 == (3) * mn(p, 0, 5, 1, 4, 2, 0, 0));
    lemma_tm(p, 1, 0, 4, 0, 2, 2, 0, 0, -6, 0, 1, 1, 1, 0, 1, 1);
    assert(t12 * s8 == (-6) * mn(p, 0, 5, 1, 3, 2, 1, 1));
    lemma_tm(p, 1, 0, 4, 0, 2, 2, 0, 0, 9, 0, 1, 1, 0, 0, 2, 0);
    assert(t12 * s9 == (9) * mn(p, 0, 5, 1, 2, 2, 2, 0));
    lemma_tm(p, 1, 0, 4, 0, 2, 2, 0, 0, -3, 0, 0, 2, 1, 1, 0, 1);
    assert(t12 * s10 == (-3) * mn(p, 0, 4, 2, 3, 3, 0, 1));
    lemma_tm(p, 1, 0, 4, 0, 2, 2, 0, 0, 9, 0, 0, 2, 0, 1, 1, 0);
    assert(t12 * s11 == (9) * mn(p, 0, 4, 2, 2, 3, 1, 0));
    assert(t12 * q == (3) * mn(p, 2, 4, 0, 2, 3, 1, 0) + (6) * mn(p, 1, 5, 0, 3, 2, 1, 0) + (1) * mn(p, 1, 5, 0, 2, 4, 0, 0) + (-3) * mn(p, 1, 5, 0, 2, 2, 2, 1) + (6) * mn(p, 1, 4, 1, 3, 3, 0, 0) + (-6) * mn(p, 1, 4, 1, 2, 3, 1, 1) + (1) * mn(p, 0, 6, 0, 3, 3, 0, 0) + (3) * mn(p, 0, 5, 1, 4, 2, 0, 0) + (-6) * mn(p, 0, 5, 1, 3, 2, 1, 1) + (9) * mn(p, 0, 5, 1, 2, 2, 2, 0) + (-3) * mn(p, 0, 4, 2, 3, 3, 0, 1) + (9) * mn(p, 0, 4, 2, 2, 3, 1, 0));
    lemma_tm(p, 6, 0, 3, 1, 3, 1, 0, 0, 3, 2, 0, 0, 0, 1, 1, 0);
    assert(t13 * s0 == (18) * mn(p, 2, 3, 1, 3, 2, 1, 0));
    lemma_tm(p, 6, 0, 3, 1, 3, 1, 0, 0, 6, 1, 1, 0, 1, 0, 1, 0);
    assert(t13 * s1 == (36) * mn(p, 1, 4, 1, 4, 1, 1, 0));
    lemma_tm(p, 6, 0, 3, 1, 3, 1, 0, 0, 1, 1, 1, 0, 0, 2, 0, 0);
    assert(t13 * s2 == (6) * mn(p, 1, 4, 1, 3, 3, 0, 0));
    lemma_tm(p, 6, 0, 3, 1, 3, 1, 0, 0, -3, 1, 1, 0, 0, 0, 2, 1);
    assert(t13 * s3 == (-18) * mn(p, 1, 4, 1, 3, 1, 2, 1));
    lemma_tm(p, 6, 0, 3, 1, 3, 1, 0, 0, 6, 1, 0, 1, 1, 1, 0, 0);
    assert(t13 * s4 == (36) * mn(p, 1, 3, 2, 4, 2, 0, 0));
    lemma_tm(p, 6, 0, 3, 1, 3, 1, 0, 0, -6, 1, 0, 1, 0, 1, 1, 1);
    assert(t13 * s5 == (-36) * mn(p, 1, 3, 2, 3, 2, 1, 1));
    lemma_tm(p, 6, 0, 3, 1, 3, 1, 0, 0, 1, 0, 2, 0, 1, 1, 0, 0);
    assert(t13 * s6 == (6) * mn(p, 0, 5, 1, 4, 2, 0, 0));
    lemma_tm(p, 6, 0, 3, 1, 3, 1, 0, 0, 3, 0, 1, 1, 2, 0, 0, 0);
    assert(t13 * s7 == (18) * mn(p, 0, 4, 2, 5, 1, 0, 0));
    lemma_tm(p, 6, 0, 3, 1, 3, 1, 0, 0, -6, 0, 1, 1, 1, 0, 1, 1);
    assert(t13 * s8 == (-36) * mn(p, 0, 4, 2, 4, 1, 1, 1));
    lemma_tm(p, 6, 0, 3, 1, 3, 1, 0, 0, 9, 0, 1, 1, 0, 0, 2, 0);
    assert(t13 * s9 == (54) * mn(p, 0, 4, 2, 3, 1, 2, 0));
    lemma_tm(p, 6, 0, 3, 1, 3, 1, 0, 0, -3, 0, 0, 2, 1, 1, 0, 1);
    assert(t13 * s10 == (-18) * mn(p, 0, 3, 3, 4, 2, 0, 1));
    lemma_tm(p, 6, 0, 3, 1, 3, 1, 0, 0, 9, 0, 0, 2, 0, 1, 1, 0);
    assert(t13 * s11 == (54) * mn(p, 0, 3, 3, 3, 2, 1, 0));
    assert(t13 * q == (18) * mn(p, 2, 3, 1, 3, 2, 1, 0) + (36) * mn(p, 1, 4, 1, 4, 1, 1, 0) + (6) * mn(p, 1, 4, 1, 3, 3, 0, 0) + (-18) * mn(p, 1, 4, 1, 3, 1, 2, 1) + (36) * mn(p, 1, 3, 2, 4, 2, 0, 0) + (-36) * mn(p, 1, 3, 2, 3, 2, 1, 1) + (6) * mn(p, 0, 5, 1, 4, 2, 0, 0) + (18) * mn(p, 0, 4, 2, 5, 1, 0, 0) + (-36) * mn(p, 0, 4, 2, 4, 1, 1, 1) + (54) * mn(p, 0, 4, 2, 3, 1, 2, 0) + (-18) * mn(p, 0, 3, 3, 4, 2, 0, 1) + (54) * mn(p, 0, 3, 3, 3, 2, 1, 0));
    lemma_tm(p, -12, 0, 3, 1, 2, 1, 1, 1, 3, 2, 0, 0, 0, 1, 1, 0);
    assert(t14 * s0 == (-36) * mn(p, 2, 3, 1, 2, 2, 2, 1));
    lemma_tm(p, -12, 0, 3, 1, 2, 1, 1, 1, 6, 1, 1, 0, 1, 0, 1, 0);
    assert(t14 * s1 == (-72) * mn(p, 1, 4, 1, 3, 1, 2, 1));
    lemma_tm(p, -12, 0, 3, 1, 2, 1, 1, 1, 1, 1, 1, 0, 0, 2, 0, 0);
    assert(t14 * s2 == (-12) * mn(p, 1, 4, 1, 2, 3, 1, 1));
    lemma_tm(p, -12, 0, 3, 1, 2, 1, 1, 1, -3, 1, 1, 0, 0, 0, 2, 1);
    assert(t14 * s3 == (36) * mn(p, 1, 4, 1, 2, 1, 3, 2));
    lemma_tm(p, -12, 0, 3, 1, 2, 1, 1, 1, 6, 1, 0, 1, 1, 1, 0, 0);
    assert(t14 * s4 == (-72) * mn(p, 1, 3, 2, 3, 2, 1, 1));
    lemma_tm(p, -12, 0, 3, 1, 2, 1, 1, 1, -6, 1, 0, 1, 0, 1, 1, 1);
    assert(t14 * s5 == (72) * mn(p, 1, 3, 2, 2, 2, 2, 2));
    lemma_tm(p, -12, 0, 3, 1, 2, 1, 1, 1, 1, 0, 2, 0, 1, 1, 0, 0);
    assert(t14 * s6 == (-12) * mn(p, 0, 5, 1, 3, 2, 1, 1));
    lemma_tm(p, -12, 0, 3, 1, 2, 1, 1, 1, 3, 0, 1, 1, 2, 0, 0, 0);
    assert(t14 * s7 == (-36) * mn(p, 0, 4, 2, 4, 1, 1, 1));
    lemma_tm(p, -12, 0, 3, 1, 2, 1, 1, 1, -6, 0, 1, 1, 1, 0, 1, 1);
    assert(t14 * s8 == (72) * mn(p, 0, 4, 2, 3, 1, 2, 2));
    lemma_tm(p, -12, 0, 3, 1, 2, 1, 1, 1, 9, 0, 1, 1, 0, 0, 2, 0);
    assert(t14 * s9 == (-108) * mn(p, 0, 4, 2, 2, 1, 3, 1));
    lemma_tm(p, -12, 0, 3, 1, 2, 1, 1, 1, -3, 0, 0, 2, 1, 1, 0, 1);
    assert(t14 * s10 == (36) * mn(p, 0, 3, 3, 3, 2, 1, 2));
    lemma_tm(p, -12, 0, 3, 1, 2, 1, 1, 1, 9, 0, 0, 2, 0, 1, 1, 0);
    assert(t14 * s11 == (-108) * mn(p, 0, 3, 3, 2, 2, 2, 1));
    assert(t14 * q == (-36) * mn(p, 2, 3, 1, 2, 2, 2, 1) + (-72) * mn(p, 1, 4, 1, 3, 1, 2, 1) + (-12) * mn(p, 1, 4, 1, 2, 3, 1, 1) + (36) * mn(p, 1, 4, 1, 2, 1, 3, 2) + (-72) * mn(p, 1, 3, 2, 3, 2, 1, 1) + (72) * mn(p, 1, 3, 2, 2, 2, 2, 2) + (-12) * mn(p, 0, 5, 1, 3, 2, 1, 1) + (-36) * mn(p, 0, 4, 2, 4, 1, 1, 1) + (72) * mn(p, 0, 4, 2, 3, 1, 2, 2) + (-108) * mn(p, 0, 4, 2, 2, 1, 3, 1) + (36) * mn(p, 0, 3, 3, 3, 2, 1, 2) + (-108) * mn(p, 0, 3, 3, 2, 2, 2, 1));
    lemma_tm(p, 18, 0, 3, 1, 1, 1, 2, 0, 3, 2, 0, 0, 0, 1, 1, 0);
    assert(t15 * s0 == (54) * mn(p, 2, 3, 1, 1, 2, 3, 0));
    lemma_tm(p, 18, 0, 3, 1, 1, 1, 2, 0, 6, 1, 1, 0, 1, 0, 1, 0);
    assert(t15 * s1 == (108) * mn(p, 1, 4, 1, 2, 1, 3, 0));
    lemma_tm(p, 18, 0, 3, 1, 1, 1, 2, 0, 1, 1, 1, 0, 0, 2, 0, 0);
    assert(t15 * s2 == (18) * mn(p, 1, 4, 1, 1, 3, 2, 0));
    lemma_tm(p, 18, 0, 3, 1, 1, 1, 2, 0, -3, 1, 1, 0, 0, 0, 2, 1);
    assert(t15 * s3 == (-54) * mn(p, 1, 4, 1, 1, 1, 4, 1));
    lemma_tm(p, 18, 0, 3, 1, 1, 1, 2, 0, 6, 1, 0, 1, 1, 1, 0, 0);
    assert(t15 * s4 == (108) * mn(p, 1, 3, 2, 2, 2, 2, 0));
    lemma_tm(p, 18, 0, 3, 1, 1, 1, 2, 0, -6, 1, 0, 1, 0, 1, 1, 1);
    assert(t15 * s5 == (-108) * mn(p, 1, 3, 2, 1, 2, 3, 1));
    lemma_tm(p, 18, 0, 3, 1, 1, 1, 2, 0, 1, 0, 2, 0, 1, 1, 0, 0);
    assert(t15 * s6 == (18) * mn(p, 0, 5, 1, 2, 2, 2, 0));
    lemma_tm(p, 18, 0, 3, 1, 1, 1, 2, 0, 3, 0, 1, 1, 2, 0, 0, 0);
    assert(t15 * s7 == (54) * mn(p, 0, 4, 2, 3, 1, 2, 0));
    lemma_tm(p, 18, 0, 3, 1, 1, 1, 2, 0, -6, 0, 1, 1, 1, 0, 1, 1);
    assert(t15 * s8 == (-108) * mn(p, 0, 4, 2, 2, 1, 3, 1));
    lemma_tm(p, 18, 0, 3, 1, 1, 1, 2, 0, 9, 0, 1, 1, 0, 0, 2, 0);
    assert(t15 * s9 == (162) * mn(p, 0, 4, 2, 1, 1, 4, 0));
    lemma_tm(p, 18, 0, 3, 1, 1, 1, 2, 0, -3, 0, 0, 2, 1, 1, 0, 1);
    assert(t15 * s10 == (-54) * mn(p, 0, 3, 3, 2, 2, 2, 1));
    lemma_tm(p, 18, 0, 3, 1, 1, 1, 2, 0, 9, 0, 0, 2, 0, 1, 1, 0);
    assert(t15 * s11 == (162) * mn(p, 0, 3, 3, 1, 2, 3, 0));
    assert(t15 * q == (54) * mn(p, 2, 3, 1, 1, 2, 3, 0) + (108) * mn(p, 1, 4, 1, 2, 1, 3, 0) + (18) * mn(p, 1, 4, 1, 1, 3, 2, 0) + (-54) * mn(p, 1, 4, 1, 1, 1, 4, 1) + (108) * mn(p, 1, 3, 2, 2, 2, 2, 0) + (-108) * mn(p, 1, 3, 2, 1, 2, 3, 1) + (18) * mn(p, 0, 5, 1, 2, 2, 2, 0) + (54) * mn(p, 0, 4, 2, 3, 1, 2, 0) + (-108) * mn(p, 0, 4, 2, 2, 1, 3, 1) + (162) * mn(p, 0, 4, 2, 1, 1, 4, 0) + (-54) * mn(p, 0, 3, 3, 2, 2, 2, 1) + (162) * mn(p, 0, 3, 3, 1, 2, 3, 0));
    lemma_tm(p, 9, 0, 2, 2, 4, 0, 0, 0, 3, 2, 0, 0, 0, 1, 1, 0);
    assert(t16 * s0 == (27) * mn(p, 2, 2, 2, 4, 1, 1, 0));
    lemma_tm(p, 9, 0, 2, 2, 4, 0, 0, 0, 6, 1, 1, 0, 1, 0, 1, 0);
    assert(t16 * s1 == (54) * mn(p, 1, 3, 2, 5, 0, 1, 0));
    lemma_tm(p, 9, 0, 2, 2, 4, 0, 0, 0, 1, 1, 1, 0, 0, 2, 0, 0);
    assert(t16 * s2 == (9) * mn(p, 1, 3, 2, 4, 2, 0, 0));
    lemma_tm(p, 9, 0, 2, 2, 4, 0, 0, 0, -3, 1, 1, 0, 0, 0, 2, 1);
    assert(t16 * s3 == (-27) * mn(p, 1, 3, 2, 4, 0, 2, 1));
    lemma_tm(p, 9, 0, 2, 2, 4, 0, 0, 0, 6, 1, 0, 1, 1, 1, 0, 0);
    assert(t16 * s4 == (54) * mn(p, 1, 2, 3, 5, 1, 0, 0));
    lemma_tm(p, 9, 0, 2, 2, 4, 0, 0, 0, -6, 1, 0, 1, 0, 1, 1, 1);
    assert(t16 * s5 == (-54) * mn(p, 1, 2, 3, 4, 1, 1, 1));
    lemma_tm(p, 9, 0, 2, 2, 4, 0, 0, 0, 1, 0, 2, 0, 1, 1, 0, 0);
    assert(t16 * s6 == (9) * mn(p, 0, 4, 2, 5, 1, 0, 0));
    lemma_tm(p, 9, 0, 2, 2, 4, 0, 0, 0, 3, 0, 1, 1, 2, 0, 0, 0);
    assert(t16 * s7 == (27) * mn(p, 0, 3, 3, 6, 0, 0, 0));
    lemma_tm(p, 9, 0, 2, 2, 4, 0, 0, 0, -6, 0, 1, 1, 1, 0, 1, 1);
    assert(t16 * s8 == (-54) * mn(p, 0, 3, 3, 5, 0, 1, 1));
    lemma_tm(p, 9, 0, 2, 2, 4, 0, 0, 0, 9, 0, 1, 1, 0, 0, 2, 0);
    assert(t16 * s9 == (81) * mn(p, 0, 3, 3, 4, 0, 2, 0));
    lemma_tm(p, 9, 0, 2, 2, 4, 0, 0, 0, -3, 0, 0, 2, 1, 1, 0, 1);
    assert(t16 * s10 == (-27) * mn(p, 0, 2, 4, 5, 1, 0, 1));
    lemma_tm(p, 9, 0, 2, 2, 4, 0, 0, 0, 9, 0, 0, 2, 0, 1, 1, 0);
    assert(t16 * s11 == (81) * mn(p, 0, 2, 4, 4, 1, 1, 0));
    assert(t16 * q == (27) * mn(p, 2, 2, 2, 4, 1, 1, 0) + (54) * mn(p, 1, 3, 2, 5, 0, 1, 0) + (9) * mn(p, 1, 3, 2, 4, 2, 0, 0) + (-27) * mn(p, 1, 3, 2, 4, 0, 2, 1) + (54) * mn(p, 1, 2, 3, 5, 1, 0, 0) + (-54) * mn(p, 1, 2, 3, 4, 1, 1, 1) + (9) * mn(p, 0, 4, 2, 5, 1, 0, 0) + (27) * mn(p, 0, 3, 3, 6, 0, 0, 0) + (-54) * mn(p, 0, 3, 3, 5, 0, 1, 1) + (81) * mn(p, 0, 3, 3, 4, 0, 2, 0) + (-27) * mn(p, 0, 2, 4, 5, 1, 0, 1) + (81) * mn(p, 0, 2, 4, 4, 1, 1, 0));
    lemma_tm(p, -36, 0, 2, 2, 3, 0, 1, 1, 3, 2, 0, 0, 0, 1, 1, 0);
    assert(t17 * s0 == (-108) * mn(p, 2, 2, 2, 3, 1, 2, 1));
    lemma_tm(p, -36, 0, 2, 2, 3, 0, 1, 1, 6, 1, 1, 0, 1, 0, 1, 0);
    assert(t17 * s1 == (-216) * mn(p, 1, 3, 2, 4, 0, 2, 1));
    lemma_tm(p, -36, 0, 2, 2, 3, 0, 1, 1, 1, 1, 1, 0, 0, 2, 0, 0);
    assert(t17 * s2 == (-36) * mn(p, 1, 3, 2, 3, 2, 1, 1));
    lemma_tm(p, -36, 0, 2, 2, 3, 0, 1, 1, -3, 1, 1, 0, 0, 0, 2, 1);
    assert(t17 * s3 == (108) * mn(p, 1, 3, 2, 3, 0, 3, 2));
    lemma_tm(p, -36, 0, 2, 2, 3, 0, 1, 1, 6, 1, 0, 1, 1, 1, 0, 0);
    assert(t17 * s4 == (-216) * mn(p, 1, 2, 3, 4, 1, 1, 1));
    lemma_tm(p, -36, 0, 2, 2, 3, 0, 1, 1, -6, 1, 0, 1, 0, 1, 1, 1);
    assert(t17 * s5 == (216) * mn(p, 1, 2, 3, 3, 1, 2, 2));
    lemma_tm(p, -36, 0, 2, 2, 3, 0, 1, 1, 1, 0, 2, 0, 1, 1, 0, 0);
    assert(t17 * s6 == (-36) * mn(p, 0, 4, 2, 4, 1, 1, 1));
    lemma_tm(p, -36, 0, 2, 2, 3, 0, 1, 1, 3, 0, 1, 1, 2, 0, 0, 0);
    assert(t17 * s7 == (-108) * mn(p, 0, 3, 3, 5, 0, 1, 1));
    lemma_tm(p, -36, 0, 2, 2, 3, 0, 1, 1, -6, 0, 1, 1, 1, 0, 1, 1);
    assert(t17 * s8 == (216) * mn(p, 0, 3, 3, 4, 0, 2, 2));
    lemma_tm(p, -36, 0, 2, 2, 3, 0, 1, 1, 9, 0, 1, 1, 0, 0, 2, 0);
    assert(t17 * s9 == (-324) * mn(p, 0, 3, 3, 3, 0, 3, 1));
    lemma_tm(p, -36, 0, 2, 2, 3, 0, 1, 1, -3, 0, 0, 2, 1, 1, 0, 1);
    assert(t17 * s10 == (108) * mn(p, 0, 2, 4, 4, 1, 1, 2));
    lemma_tm(p, -36, 0, 2, 2, 3, 0, 1, 1, 9, 0, 0, 2, 0, 1, 1, 0);
    assert(t17 * s11 == (-324) * mn(p, 0, 2, 4, 3, 1, 2, 1));
    assert(t17 * q == (-108) * mn(p, 2, 2, 2, 3, 1, 2, 1) + (-216) * mn(p, 1, 3, 2, 4, 0, 2, 1) + (-36) * mn(p, 1, 3, 2, 3, 2, 1, 1) + (108) * mn(p, 1, 3, 2, 3, 0, 3, 2) + (-216) * mn(p, 1, 2, 3, 4, 1, 1, 1) + (216) * mn(p, 1, 2, 3, 3, 1, 2, 2) + (-36) * mn(p, 0, 4, 2, 4, 1, 1, 1) + (-108) * mn(p, 0, 3, 3, 5, 0, 1, 1) + (216) * mn(p, 0, 3, 3, 4, 0, 2, 2) + (-324) * mn(p, 0, 3, 3, 3, 0, 3, 1) + (108) * mn(p, 0, 2, 4, 4, 1, 1, 2) + (-324) * mn(p, 0, 2, 4, 3, 1, 2, 1));
    lemma_tm(p, -6, 0, 2, 2, 2, 2, 0, 1, 3, 2, 0, 0, 0, 1, 1, 0);
    assert(t18 * s0 == (-18) * mn(p, 2, 2, 2, 2, 3, 1, 1));
    lemma_tm(p, -6, 0, 2, 2, 2, 2, 0, 1, 6, 1, 1, 0, 1, 0, 1, 0);
    assert(t18 * s1 == (-36) * mn(p, 1, 3, 2, 3, 2, 1, 1));
    lemma_tm(p, -6, 0, 2, 2, 2, 2, 0, 1, 1, 1, 1, 0, 0, 2, 0, 0);
    assert(t18 * s2 == (-6) * mn(p, 1, 3, 2, 2, 4, 0, 1));
    lemma_tm(p, -6, 0, 2, 2, 2, 2, 0, 1, -3, 1, 1, 0, 0, 0, 2, 1);
    assert(t18 * s3 == (18) * mn(p, 1, 3, 2, 2, 2, 2, 2));
    lemma_tm(p, -6, 0, 2, 2, 2, 2, 0, 1, 6, 1, 0, 1, 1, 1, 0, 0);
    assert(t18 * s4 == (-36) * mn(p, 1, 2, 3, 3, 3, 0, 1));
    lemma_tm(p, -6, 0, 2, 2, 2, 2, 0, 1, -6, 1, 0, 1, 0, 1, 1, 1);
    assert(t18 * s5 == (36) * mn(p, 1, 2, 3, 2, 3, 1, 2));
    lemma_tm(p, -6, 0, 2, 2, 2, 2, 0, 1, 1, 0, 2, 0, 1, 1, 0, 0);
    assert(t18 * s6 == (-6) * mn(p, 0, 4, 2, 3, 3, 0, 1));
    lemma_tm(p, -6, 0, 2, 2, 2, 2, 0, 1, 3, 0, 1, 1, 2, 0, 0, 0);
    assert(t18 * s7 == (-18) * mn(p, 0, 3, 3, 4, 2, 0, 1));
    lemma_tm(p, -6, 0, 2, 2, 2, 2, 0, 1, -6, 0, 1, 1, 1, 0, 1, 1);
    assert(t18 * s8 == (36) * mn(p, 0, 3, 3, 3, 2, 1, 2));
    lemma_tm(p, -6, 0, 2, 2, 2, 2, 0, 1, 9, 0, 1, 1, 0, 0, 2, 0);
    assert(t18 * s9 == (-54) * mn(p, 0, 3, 3, 2, 2, 2, 1));
    lemma_tm(p, -6, 0, 2, 2, 2, 2, 0, 1, -3, 0, 0, 2, 1, 1, 0, 1);
    assert(t18 * s10 == (18) * mn(p, 0, 2, 4, 3, 3, 0, 2));
    lemma_tm(p, -6, 0, 2, 2, 2, 2, 0, 1, 9, 0, 0, 2, 0, 1, 1, 0);
    assert(t18 * s11 == (-54) * mn(p, 0, 2, 4, 2, 3, 1, 1));
    assert(t18 * q == (-18) * mn(p, 2, 2, 2, 2, 3, 1, 1) + (-36) * mn(p, 1, 3, 2, 3, 2, 1, 1) + (-6) * mn(p, 1, 3, 2, 2, 4, 0, 1) + (18) * mn(p, 1, 3, 2, 2, 2, 2, 2) + (-36) * mn(p, 1, 2, 3, 3, 3, 0, 1) + (36) * mn(p, 1, 2, 3, 2, 3, 1, 2) + (-6) * mn(p, 0, 4, 2, 3, 3, 0, 1) + (-18) * mn(p, 0, 3, 3, 4, 2, 0, 1) + (36) * mn(p, 0, 3, 3, 3, 2, 1, 2) + (-54) * mn(p, 0, 3, 3, 2, 2, 2, 1) + (18) * mn(p, 0, 2, 4, 3, 3, 0, 2) + (-54) * mn(p, 0, 2, 4, 2, 3, 1, 1));
    lemma_tm(p, 36, 0, 2, 2, 2, 0, 2, 2, 3, 2, 0, 0, 0, 1, 1, 0);
    assert(t19 * s0 == (108) * mn(p, 2, 2, 2, 2, 1, 3, 2));
    lemma_tm(p, 36, 0, 2, 2, 2, 0, 2, 2, 6, 1, 1, 0, 1, 0, 1, 0);
    assert(t19 * s1 == (216) * mn(p, 1, 3, 2, 3, 0, 3, 2));
    lemma_tm(p, 36, 0, 2, 2, 2, 0, 2, 2, 1, 1, 1, 0, 0, 2, 0, 0);
    assert(t19 * s2 == (36) * mn(p, 1, 3, 2, 2, 2, 2, 2));
    lemma_tm(p, 36, 0, 2, 2, 2, 0, 2, 2, -3, 1, 1, 0, 0, 0, 2, 1);
    assert(t19 * s3 == (-108) * mn(p, 1, 3, 2, 2, 0, 4, 3));
    lemma_tm(p, 36, 0, 2, 2, 2, 0, 2, 2, 6, 1, 0, 1, 1, 1, 0, 0);
    assert(t19 * s4 == (216) * mn(p, 1, 2, 3, 3, 1, 2, 2));
    lemma_tm(p, 36, 0, 2, 2, 2, 0, 2, 2, -6, 1, 0, 1, 0, 1, 1, 1);
    assert(t19 * s5 == (-216) * mn(p, 1, 2, 3, 2, 1, 3, 3));
    lemma_tm(p, 36, 0, 2, 2, 2, 0, 2, 2, 1, 0, 2, 0, 1, 1, 0, 0);
    assert(t19 * s6 == (36) * mn(p, 0, 4, 2, 3, 1, 2, 2));
    lemma_tm(p, 36, 0, 2, 2, 2, 0, 2, 2, 3, 0, 1, 1, 2, 0, 0, 0);
    assert(t19 * s7 == (108) * mn(p, 0, 3, 3, 4, 0, 2, 2));
    lemma_tm(p, 36, 0, 2, 2, 2, 0, 2, 2, -6, 0, 1, 1, 1, 0, 1, 1);
    assert(t19 * s8 == (-216) * mn(p, 0, 3, 3, 3, 0, 3, 3));
    lemma_tm(p, 36, 0, 2, 2, 2, 0, 2, 2, 9, 0, 1, 1, 0, 0, 2, 0);
    assert(t19 * s9 == (324) * mn(p, 0, 3, 3, 2, 0, 4, 2));
    lemma_tm(p, 36, 0, 2, 2, 2, 0, 2, 2, -3, 0, 0, 2, 1, 1, 0, 1);
    assert(t19 * s10 == (-108) * mn(p, 0, 2, 4, 3, 1, 2, 3));
    lemma_tm(p, 36, 0, 2, 2, 2, 0, 2, 2, 9, 0, 0, 2, 0, 1, 1, 0);
    assert(t19 * s11 == (324) * mn(p, 0, 2, 4, 2, 1, 3, 2));
    assert(t19 * q == (108) * mn(p, 2, 2, 2, 2, 1, 3, 2) + (216) * mn(p, 1, 3, 2, 3, 0, 3, 2) + (36) * mn(p, 1, 3, 2, 2, 2, 2, 2) + (-108) * mn(p, 1, 3, 2, 2, 0, 4, 3) + (216) * mn(p, 1, 2, 3, 3, 1, 2, 2) + (-216) * mn(p, 1, 2, 3, 2, 1, 3, 3) + (36) * mn(p, 0, 4, 2, 3, 1, 2, 2) + (108) * mn(p, 0, 3, 3, 4, 0, 2, 2) + (-216) * mn(p, 0, 3, 3, 3, 0, 3, 3) + (324) * mn(p, 0, 3, 3, 2, 0, 4, 2) + (-108) * mn(p, 0, 2, 4, 3, 1, 2, 3) + (324) * mn(p, 0, 2, 4, 2, 1, 3, 2));
    lemma_tm(p, 54, 0, 2, 2, 2, 0, 2, 0, 3, 2, 0, 0, 0, 1, 1, 0);
    assert(t20 * s0 == (162) * mn(p, 2, 2, 2, 2, 1, 3, 0));
    lemma_tm(p, 54, 0, 2, 2, 2, 0, 2, 0, 6, 1, 1, 0, 1, 0, 1, 0);
    assert(t20 * s1 == (324) * mn(p, 1, 3, 2, 3, 0, 3, 0));
    lemma_tm(p, 54, 0, 2, 2, 2, 0, 2, 0, 1, 1, 1, 0, 0, 2, 0, 0);
    assert(t20 * s2 == (54) * mn(p, 1, 3, 2, 2, 2, 2, 0));
    lemma_tm(p, 54, 0, 2, 2, 2, 0, 2, 0, -3, 1, 1, 0, 0, 0, 2, 1);
    assert(t20 * s3 == (-162) * mn(p, 1, 3, 2, 2, 0, 4, 1));
    lemma_tm(p, 54, 0, 2, 2, 2, 0, 2, 0, 6, 1, 0, 1, 1, 1, 0, 0);
    assert(t20 * s4 == (324) * mn(p, 1, 2, 3, 3, 1, 2, 0));
    lemma_tm(p, 54, 0, 2, 2, 2, 0, 2, 0, -6, 1, 0, 1, 0, 1, 1, 1);
    assert(t20 * s5 == (-324) * mn(p, 1, 2, 3, 2, 1, 3, 1));
    lemma_tm(p, 54, 0, 2, 2, 2, 0, 2, 0, 1, 0, 2, 0, 1, 1, 0, 0);
    assert(t20 * s6 == (54) * mn(p, 0, 4, 2, 3, 1, 2, 0));
    lemma_tm(p, 54, 0, 2, 2, 2, 0, 2, 0, 3, 0, 1, 1, 2, 0, 0, 0);
    assert(t20 * s7 == (162) * mn(p, 0, 3, 3, 4, 0, 2, 0));
    lemma_tm(p, 54, 0, 2, 2, 2, 0, 2, 0, -6, 0, 1, 1, 1, 0, 1, 1);
    assert(t20 * s8 == (-324) * mn(p, 0, 3, 3, 3, 0, 3, 1));
    lemma_tm(p, 54, 0, 2, 2, 2, 0, 2, 0, 9, 0, 1, 1, 0, 0, 2, 0);
    assert(t20 * s9 == (486) * mn(p, 0, 3, 3, 2, 0, 4, 0));
    lemma_tm(p, 54, 0, 2, 2, 2, 0, 2, 0, -3, 0, 0, 2, 1, 1, 0, 1);
    assert(t20 * s10 == (-162) * mn(p, 0, 2, 4, 3, 1, 2, 1));
    lemma_tm(p, 54, 0, 2, 2, 2, 0, 2, 0, 9, 0, 0, 2, 0, 1, 1, 0);
    assert(t20 * s11 == (486) * mn(p, 0, 2, 4, 2, 1, 3, 0));
    assert(t20 * q == (162) * mn(p, 2, 2, 2, 2, 1, 3, 0) + (324) * mn(p, 1, 3, 2, 3, 0, 3, 0) + (54) * mn(p, 1, 3, 2, 2, 2, 2, 0) + (-162) * mn(p, 1, 3, 2, 2, 0, 4, 1) + (324) * mn(p, 1, 2, 3, 3, 1, 2, 0) + (-324) * mn(p, 1, 2, 3, 2, 1, 3, 1) + (54) * mn(p, 0, 4, 2, 3, 1, 2, 0) + (162) * mn(p, 0, 3, 3, 4, 0, 2, 0) + (-324) * mn(p, 0, 3, 3, 3, 0, 3, 1) + (486) * mn(p, 0, 3, 3, 2, 0, 4, 0) + (-162) * mn(p, 0, 2, 4, 3, 1, 2, 1) + (486) * mn(p, 0, 2, 4, 2, 1, 3, 0));
    lemma_tm(p, 18, 0, 2, 2, 1, 2, 1, 0, 3, 2, 0, 0, 0, 1, 1, 0);
    assert(t21 * s0 == (54) * mn(p, 2, 2, 2, 1, 3, 2, 0));
    lemma_tm(p, 18, 0, 2, 2, 1, 2, 1, 0, 6, 1, 1, 0, 1, 0, 1, 0);
    assert(t21 * s1 == (108) * mn(p, 1, 3, 2, 2, 2, 2, 0));
    lemma_tm(p, 18, 0, 2, 2, 1, 2, 1, 0, 1, 1, 1, 0, 0, 2, 0, 0);
    assert(t21 * s2 == (18) * mn(p, 1, 3, 2, 1, 4, 1, 0));
    lemma_tm(p, 18, 0, 2, 2, 1, 2, 1, 0, -3, 1, 1, 0, 0, 0, 2, 1);
    assert(t21 * s3 == (-54) * mn(p, 1, 3, 2, 1, 2, 3, 1));
    lemma_tm(p, 18, 0, 2, 2, 1, 2, 1, 0, 6, 1, 0, 1, 1, 1, 0, 0);
    assert(t21 * s4 == (108) * mn(p, 1, 2, 3, 2, 3, 1, 0));
    lemma_tm(p, 18, 0, 2, 2, 1, 2, 1, 0, -6, 1, 0, 1, 0, 1, 1, 1);
    assert(t21 * s5 == (-108) * mn(p, 1, 2, 3, 1, 3, 2, 1));
    lemma_tm(p, 18, 0, 2, 2, 1, 2, 1, 0, 1, 0, 2, 0, 1, 1, 0, 0);
    assert(t21 * s6 == (18) * mn(p, 0, 4, 2, 2, 3, 1, 0));
    lemma_tm(p, 18, 0, 2, 2, 1, 2, 1, 0, 3, 0, 1, 1, 2, 0, 0, 0);
    assert(t21 * s7 == (54) * mn(p, 0, 3, 3, 3, 2, 1, 0));
    lemma_tm(p, 18, 0, 2, 2, 1, 2, 1, 0, -6, 0, 1, 1, 1, 0, 1, 1);
    assert(t21 * s8 == (-108) * mn(p, 0, 3, 3, 2, 2, 2, 1));
    lemma_tm(p, 18, 0, 2, 2, 1, 2, 1, 0, 9, 0, 1, 1, 0, 0, 2, 0);
    assert(t21 * s9 == (162) * mn(p, 0, 3, 3, 1, 2, 3, 0));
    lemma_tm(p, 18, 0, 2, 2, 1, 2, 1, 0, -3, 0, 0, 2, 1, 1, 0, 1);
    assert(t21 * s10 == (-54) * mn(p, 0, 2, 4, 2, 3, 1, 1));
    lemma_tm(p, 18, 0, 2, 2, 1, 2, 1, 0, 9, 0, 0, 2, 0, 1, 1, 0);
    assert(t21 * s11 == (162) * mn(p, 0, 2, 4, 1, 3, 2, 0));
    assert(t21 * q == (54) * mn(p, 2, 2, 2, 1, 3, 2, 0) + (108) * mn(p, 1, 3, 2, 2, 2, 2, 0) + (18) * mn(p, 1, 3, 2, 1, 4, 1, 0) + (-54) * mn(p, 1, 3, 2, 1, 2, 3, 1) + (108) * mn(p, 1, 2, 3, 2, 3, 1, 0) + (-108) * mn(p, 1, 2, 3, 1, 3, 2, 1) + (18) * mn(p, 0, 4, 2, 2, 3, 1, 0) + (54) * mn(p, 0, 3, 3, 3, 2, 1, 0) + (-108) * mn(p, 0, 3, 3, 2, 2, 2, 1) + (162) * mn(p, 0, 3, 3, 1, 2, 3, 0) + (-54) * mn(p, 0, 2, 4, 2, 3, 1, 1) + (162) * mn(p, 0, 2, 4, 1, 3, 2, 0));
    lemma_tm(p, -108, 0, 2, 2, 1, 0, 3, 1, 3, 2, 0, 0, 0, 1, 1, 0);
    assert(t22 * s0 == (-324) * mn(p, 2, 2, 2, 1, 1, 4, 1));
    lemma_tm(p, -108, 0, 2, 2, 1, 0, 3, 1, 6, 1, 1, 0, 1, 0, 1, 0);
    assert(t22 * s1 == (-648) * mn(p, 1, 3, 2, 2, 0, 4, 1));
    lemma_tm(p, -108, 0, 2, 2, 1, 0, 3, 1, 1, 1, 1, 0, 0, 2, 0, 0);
    assert(t22 * s2 == (-108) * mn(p, 1, 3, 2, 1, 2, 3, 1));
    lemma_tm(p, -108, 0, 2, 2, 1, 0, 3, 1, -3, 1, 1, 0, 0, 0, 2, 1);
    assert(t22 * s3 == (324) * mn(p, 1, 3, 2, 1, 0, 5, 2));
    lemma_tm(p, -108, 0, 2, 2, 1, 0, 3, 1, 6, 1, 0, 1, 1, 1, 0, 0);
    assert(t22 * s4 == (-648) * mn(p, 1, 2, 3, 2, 1, 3, 1));
    lemma_tm(p, -108, 0, 2, 2, 1, 0, 3, 1, -6, 1, 0, 1, 0, 1, 1, 1);
    assert(t22 * s5 == (648) * mn(p, 1, 2, 3, 1, 1, 4, 2));
    lemma_tm(p, -108, 0, 2, 2, 1, 0, 3, 1, 1, 0, 2, 0, 1, 1, 0, 0);
    assert(t22 * s6 == (-108) * mn(p, 0, 4, 2, 2, 1, 3, 1));
    lemma_tm(p, -108, 0, 2, 2, 1, 0, 3, 1, 3, 0, 1, 1, 2, 0, 0, 0);
    assert(t22 * s7 == (-324) * mn(p, 0, 3, 3, 3, 0, 3, 1));
    lemma_tm(p, -108, 0, 2, 2, 1, 0, 3, 1, -6, 0, 1, 1, 1, 0, 1, 1);
    assert(t22 * s8 == (648) * mn(p, 0, 3, 3, 2, 0, 4, 2));
    lemma_tm(p, -108, 0, 2, 2, 1, 0, 3, 1, 9, 0, 1, 1, 0, 0, 2, 0);
    assert(t22 * s9 == (-972) * mn(p, 0, 3, 3, 1, 0, 5, 1));
    lemma_tm(p, -108, 0, 2, 2, 1, 0, 3, 1, -3, 0, 0, 2, 1, 1, 0, 1);
    assert(t22 * s10 == (324) * mn(p, 0, 2, 4, 2, 1, 3, 2));
    lemma_tm(p, -108, 0, 2, 2, 1, 0, 3, 1, 9, 0, 0, 2, 0, 1, 1, 0);
    assert(t22 * s11 == (-972) * mn(p, 0, 2, 4, 1, 1, 4, 1));
    assert(t22 * q == (-324) * mn(p, 2, 2, 2, 1, 1, 4, 1) + (-648) * mn(p, 1, 3, 2, 2, 0, 4, 1) + (-108) * mn(p, 1, 3, 2, 1, 2, 3, 1) + (324) * mn(p, 1, 3, 2, 1, 0, 5, 2) + (-648) * mn(p, 1, 2, 3, 2, 1, 3, 1) + (648) * mn(p, 1, 2, 3, 1, 1, 4, 2) + (-108) * mn(p, 0, 4, 2, 2, 1, 3, 1) + (-324) * mn(p, 0, 3, 3, 3, 0, 3, 1) + (648) * mn(p, 0, 3, 3, 2, 0, 4, 2) + (-972) * mn(p, 0, 3, 3, 1, 0, 5, 1) + (324) * mn(p, 0, 2, 4, 2, 1, 3, 2) + (-972) * mn(p, 0, 2, 4, 1, 1, 4, 1));
    lemma_tm(p, 81, 0, 2, 2, 0, 0, 4, 0, 3, 2, 0, 0, 0, 1, 1, 0);
    assert(t23 * s0 == (243) * mn(p, 2, 2, 2, 0, 1, 5, 0));
    lemma_tm(p, 81, 0, 2, 2, 0, 0, 4, 0, 6, 1, 1, 0, 1, 0, 1, 0);
    assert(t23 * s1 == (486) * mn(p, 1, 3, 2, 1, 0, 5, 0));
    lemma_tm(p, 81, 0, 2, 2, 0, 0, 4, 0, 1, 1, 1, 0, 0, 2, 0, 0);
    assert(t23 * s2 == (81) * mn(p, 1, 3, 2, 0, 2, 4, 0));
    lemma_tm(p, 81, 0, 2, 2, 0, 0, 4, 0, -3, 1, 1, 0, 0, 0, 2, 1);
    assert(t23 * s3 == (-243) * mn(p, 1, 3, 2, 0, 0, 6, 1));
    lemma_tm(p, 81, 0, 2, 2, 0, 0, 4, 0, 6, 1, 0, 1, 1, 1, 0, 0);
    assert(t23 * s4 == (486) * mn(p, 1, 2, 3, 1, 1, 4, 0));
    lemma_tm(p, 81, 0, 2, 2, 0, 0, 4, 0, -6, 1, 0, 1, 0, 1, 1, 1);
    assert(t23 * s5 == (-486) * mn(p, 1, 2, 3, 0, 1, 5, 1));
    lemma_tm(p, 81, 0, 2, 2, 0, 0, 4, 0, 1, 0, 2, 0, 1, 1, 0, 0);
    assert(t23 * s6 == (81) * mn(p, 0, 4, 2, 1, 1, 4, 0));
    lemma_tm(p, 81, 0, 2, 2, 0, 0, 4, 0, 3, 0, 1, 1, 2, 0, 0, 0);
    assert(t23 * s7 == (243) * mn(p, 0, 3, 3, 2, 0, 4, 0));
    lemma_tm(p, 81, 0, 2, 2, 0, 0, 4, 0, -6, 0, 1, 1, 1, 0, 1, 1);
    assert(t23 * s8 == (-486) * mn(p, 0, 3, 3, 1, 0, 5, 1));
    lemma_tm(p, 81, 0, 2, 2, 0, 0, 4, 0, 9, 0, 1, 1, 0, 0, 2, 0);
    assert(t23 * s9 == (729) * mn(p, 0, 3, 3, 0, 0, 6, 0));
    lemma_tm(p, 81, 0, 2, 2, 0, 0, 4, 0, -3, 0, 0, 2, 1, 1, 0, 1);
    assert(t23 * s10 == (-243) * mn(p, 0, 2, 4, 1, 1, 4, 1));
    lemma_tm(p, 81, 0, 2, 2, 0, 0, 4, 0, 9, 0, 0, 2, 0, 1, 1, 0);
    assert(t23 * s11 == (729) * mn(p, 0, 2, 4, 0, 1, 5, 0));
    assert(t23 * q == (243) * mn(p, 2, 2, 2, 0, 1, 5, 0) + (486) * mn(p, 1, 3, 2, 1, 0, 5, 0) + (81) * mn(p, 1, 3, 2, 0, 2, 4, 0) + (-243) * mn(p, 1, 3, 2, 0, 0, 6, 1) + (486) * mn(p, 1, 2, 3, 1, 1, 4, 0) + (-486) * mn(p, 1, 2, 3, 0, 1, 5, 1) + (81) * mn(p, 0, 4, 2, 1, 1, 4, 0) + (243) * mn(p, 0, 3, 3, 2, 0, 4, 0) + (-486) * mn(p, 0, 3, 3, 1, 0, 5, 1) + (729) * mn(p, 0, 3, 3, 0, 0, 6, 0) + (-243) * mn(p, 0, 2, 4, 1, 1, 4, 1) + (729) * mn(p, 0, 2, 4, 0, 1, 5, 0));
    lemma_tm(p, -18, 0, 1, 3, 3, 1, 0, 1, 3, 2, 0, 0, 0, 1, 1, 0);
    assert(t24 * s0 == (-54) * mn(p, 2, 1, 3, 3, 2, 1, 1));
    lemma_tm(p, -18, 0, 1, 3, 3, 1, 0, 1, 6, 1, 1, 0, 1, 0, 1, 0);
    assert(t24 * s1 == (-108) * mn(p, 1, 2, 3, 4, 1, 1, 1));
    lemma_tm(p, -18, 0, 1, 3, 3, 1, 0, 1, 1, 1, 1, 0, 0, 2, 0, 0);
    assert(t24 * s2 == (-18) * mn(p, 1, 2, 3, 3, 3, 0, 1));
    lemma_tm(p, -18, 0, 1, 3, 3, 1, 0, 1, -3, 1, 1, 0, 0, 0, 2, 1);
    assert(t24 * s3 == (54) * mn(p, 1, 2, 3, 3, 1, 2, 2));
    lemma_tm(p, -18, 0, 1, 3, 3, 1, 0, 1, 6, 1, 0, 1, 1, 1, 0, 0);
    assert(t24 * s4 == (-108) * mn(p, 1, 1, 4, 4, 2, 0, 1));
    lemma_tm(p, -18, 0, 1, 3, 3, 1, 0, 1, -6, 1, 0, 1, 0, 1, 1, 1);
    assert(t24 * s5 == (108) * mn(p, 1, 1, 4, 3, 2, 1, 2));
    lemma_tm(p, -18, 0, 1, 3, 3, 1, 0, 1, 1, 0, 2, 0, 1, 1, 0, 0);
    assert(t24 * s6 == (-18) * mn(p, 0, 3, 3, 4, 2, 0, 1));
    lemma_tm(p, -18, 0, 1, 3, 3, 1, 0, 1, 3, 0, 1, 1, 2, 0, 0, 0);
    assert(t24 * s7 == (-54) * mn(p, 0, 2, 4, 5, 1, 0, 1));
    lemma_tm(p, -18, 0, 1, 3, 3, 1, 0, 1, -6, 0, 1, 1, 1, 0, 1, 1);
    assert(t24 * s8 == (108) * mn(p, 0, 2, 4, 4, 1, 1, 2));
    lemma_tm(p, -18, 0, 1, 3, 3, 1, 0, 1, 9, 0, 1, 1, 0, 0, 2, 0);
    assert(t24 * s9 == (-162) * mn(p, 0, 2, 4, 3, 1, 2, 1));
    lemma_tm(p, -18, 0, 1, 3, 3, 1, 0, 1, -3, 0, 0, 2, 1, 1, 0, 1);
    assert(t24 * s10 == (54) * mn(p, 0, 1, 5, 4, 2, 0, 2));
    lemma_tm(p, -18, 0, 1, 3, 3, 1, 0, 1, 9, 0, 0, 2, 0, 1, 1, 0);
    assert(t24 * s11 == (-162) * mn(p, 0, 1, 5, 3, 2, 1, 1));
    assert(t24 * q == (-54) * mn(p, 2, 1, 3, 3, 2, 1, 1) + (-108) * mn(p, 1, 2, 3, 4, 1, 1, 1) + (-18) * mn(p, 1, 2, 3, 3, 3, 0, 1) + (54) * mn(p, 1, 2, 3, 3, 1, 2, 2) + (-108) * mn(p, 1, 1, 4, 4, 2, 0, 1) + (108) * mn(p, 1, 1, 4, 3, 2, 1, 2) + (-18) * mn(p, 0, 3, 3, 4, 2, 0, 1) + (-54) * mn(p, 0, 2, 4, 5, 1, 0, 1) + (108) * mn(p, 0, 2, 4, 4, 1, 1, 2) + (-162) * mn(p, 0, 2, 4, 3, 1, 2, 1) + (54) * mn(p, 0, 1, 5, 4, 2, 0, 2) + (-162) * mn(p, 0, 1, 5, 3, 2, 1, 1));
    lemma_tm(p, 36, 0, 1, 3, 2, 1, 1, 2, 3, 2, 0, 0, 0, 1, 1, 0);
    assert(t25 * s0 == (108) * mn(p, 2, 1, 3, 2, 2, 2, 2));
    lemma_tm(p, 36, 0, 1, 3, 2, 1, 1, 2, 6, 1, 1, 0, 1, 0, 1, 0);
    assert(t25 * s1 == (216) * mn(p, 1, 2, 3, 3, 1, 2, 2));
    lemma_tm(p, 36, 0, 1, 3, 2, 1, 1, 2, 1, 1, 1, 0, 0, 2, 0, 0);
    assert(t25 * s2 == (36) * mn(p, 1, 2, 3, 2, 3, 1, 2));
    lemma_tm(p, 36, 0, 1, 3, 2, 1, 1, 2, -3, 1, 1, 0, 0, 0, 2, 1);
    assert(t25 * s3 == (-108) * mn(p, 1, 2, 3, 2, 1, 3, 3));
    lemma_tm(p, 36, 0, 1, 3, 2, 1, 1, 2, 6, 1, 0, 1, 1, 1, 0, 0);
    assert(t25 * s4 == (216) * mn(p, 1, 1, 4, 3, 2, 1, 2));
    lemma_tm(p, 36, 0, 1, 3, 2, 1, 1, 2, -6, 1, 0, 1, 0, 1, 1, 1);
    assert(t25 * s5 == (-216) * mn(p, 1, 1, 4, 2, 2, 2, 3));
    lemma_tm(p, 36, 0, 1, 3, 2, 1, 1, 2, 1, 0, 2, 0, 1, 1, 0, 0);
    assert(t25 * s6 == (36) * mn(p, 0, 3, 3, 3, 2, 1, 2));
    lemma_tm(p, 36, 0, 1, 3, 2, 1, 1, 2, 3, 0, 1, 1, 2, 0, 0, 0);
    assert(t25 * s7 == (108) * mn(p, 0, 2, 4, 4, 1, 1, 2));
    lemma_tm(p, 36, 0, 1, 3, 2, 1, 1, 2, -6, 0, 1, 1, 1, 0, 1, 1);
    assert(t25 * s8 == (-216) * mn(p, 0, 2, 4, 3, 1, 2, 3));
    lemma_tm(p, 36, 0, 1, 3, 2, 1, 1, 2, 9, 0, 1, 1, 0, 0, 2, 0);
    assert(t25 * s9 == (324) * mn(p, 0, 2, 4, 2, 1, 3, 2));
    lemma_tm(p, 36, 0, 1, 3, 2, 1, 1, 2, -3, 0, 0, 2, 1, 1, 0, 1);
    assert(t25 * s10 == (-108) * mn(p, 0, 1, 5, 3, 2, 1, 3));
    lemma_tm(p, 36, 0, 1, 3, 2, 1, 1, 2, 9, 0, 0, 2, 0, 1, 1, 0);
    assert(t25 * s11 == (324) * mn(p, 0, 1, 5, 2, 2, 2, 2));
    assert(t25 * q == (108) * mn(p, 2, 1, 3, 2, 2, 2, 2) + (216) * mn(p, 1, 2, 3, 3, 1, 2, 2) + (36) * mn(p, 1, 2, 3, 2, 3, 1, 2) + (-108) * mn(p, 1, 2, 3, 2, 1, 3, 3) + (216) * mn(p, 1, 1, 4, 3, 2, 1, 2) + (-216) * mn(p, 1, 1, 4, 2, 2, 2, 3) + (36) * mn(p, 0, 3, 3, 3, 2, 1, 2) + (108) * mn(p, 0, 2, 4, 4, 1, 1, 2) + (-216) * mn(p, 0, 2, 4, 3, 1, 2, 3) + (324) * mn(p, 0, 2, 4, 2, 1, 3, 2) + (-108) * mn(p, 0, 1, 5, 3, 2, 1, 3) + (324) * mn(p, 0, 1, 5, 2, 2, 2, 2));
    lemma_tm(p, 54, 0, 1, 3, 2, 1, 1, 0, 3, 2, 0, 0, 0, 1, 1, 0);
    assert(t26 * s0 == (162) * mn(p, 2, 1, 3, 2, 2, 2, 0));
    lemma_tm(p, 54, 0, 1, 3, 2, 1, 1, 0, 6, 1, 1, 0, 1, 0, 1, 0);
    assert(t26 * s1 == (324) * mn(p, 1, 2, 3, 3, 1, 2, 0));
    lemma_tm(p, 54, 0, 1, 3, 2, 1, 1, 0, 1, 1, 1, 0, 0, 2, 0, 0);
    assert(t26 * s2 == (54) * mn(p, 1, 2, 3, 2, 3, 1, 0));
    lemma_tm(p, 54, 0, 1, 3, 2, 1, 1, 0, -3, 1, 1, 0, 0, 0, 2, 1);
    assert(t26 * s3 == (-162) * mn(p, 1, 2, 3, 2, 1, 3, 1));
    lemma_tm(p, 54, 0, 1, 3, 2, 1, 1, 0, 6, 1, 0, 1, 1, 1, 0, 0);
    assert(t26 * s4 == (324) * mn(p, 1, 1, 4, 3, 2, 1, 0));
    lemma_tm(p, 54, 0, 1, 3, 2, 1, 1, 0, -6, 1, 0, 1, 0, 1, 1, 1);
    assert(t26 * s5 == (-324) * mn(p, 1, 1, 4, 2, 2, 2, 1));
    lemma_tm(p, 54, 0, 1, 3, 2, 1, 1, 0, 1, 0, 2, 0, 1, 1, 0, 0);
    assert(t26 * s6 == (54) * mn(p, 0, 3, 3, 3, 2, 1, 0));
    lemma_tm(p, 54, 0, 1, 3, 2, 1, 1, 0, 3, 0, 1, 1, 2, 0, 0, 0);
    assert(t26 * s7 == (162) * mn(p, 0, 2, 4, 4, 1, 1, 0));
    lemma_tm(p, 54, 0, 1, 3, 2, 1, 1, 0, -6, 0, 1, 1, 1, 0, 1, 1);
    assert(t26 * s8 == (-324) * mn(p, 0, 2, 4, 3, 1, 2, 1));
    lemma_tm(p, 54, 0, 1, 3, 2, 1, 1, 0, 9, 0, 1, 1, 0, 0, 2, 0);
    assert(t26 * s9 == (486) * mn(p, 0, 2, 4, 2, 1, 3, 0));
    lemma_tm(p, 54, 0, 1, 3, 2, 1, 1, 0, -3, 0, 0, 2, 1, 1, 0, 1);
    assert(t26 * s10 == (-162) * mn(p, 0, 1, 5, 3, 2, 1, 1));
    lemma_tm(p, 54, 0, 1, 3, 2, 1, 1, 0, 9, 0, 0, 2, 0, 1, 1, 0);
    assert(t26 * s11 == (486) * mn(p, 0, 1, 5, 2, 2, 2, 0));
    assert(t26 * q == (162) * mn(p, 2, 1, 3, 2, 2, 2, 0) + (324) * mn(p, 1, 2, 3, 3, 1, 2, 0) + (54) * mn(p, 1, 2, 3, 2, 3, 1, 0) + (-162) * mn(p, 1, 2, 3, 2, 1, 3, 1) + (324) * mn(p, 1, 1, 4, 3, 2, 1, 0) + (-324) * mn(p, 1, 1, 4, 2, 2, 2, 1) + (54) * mn(p, 0, 3, 3, 3, 2, 1, 0) + (162) * mn(p, 0, 2, 4, 4, 1, 1, 0) + (-324) * mn(p, 0, 2, 4, 3, 1, 2, 1) + (486) * mn(p, 0, 2, 4, 2, 1, 3, 0) + (-162) * mn(p, 0, 1, 5, 3, 2, 1, 1) + (486) * mn(p, 0, 1, 5, 2, 2, 2, 0));
    lemma_tm(p, -162, 0, 1, 3, 1, 1, 2, 1, 3, 2, 0, 0, 0, 1, 1, 0);
    assert(t27 * s0 == (-486) * mn(p, 2, 1, 3, 1, 2, 3, 1));
    lemma_tm(p, -162, 0, 1, 3, 1, 1, 2, 1, 6, 1, 1, 0, 1, 0, 1, 0);
    assert(t27 * s1 == (-972) * mn(p, 1, 2, 3, 2, 1, 3, 1));
    lemma_tm(p, -162, 0, 1, 3, 1, 1, 2, 1, 1, 1, 1, 0, 0, 2, 0, 0);
    assert(t27 * s2 == (-162) * mn(p, 1, 2, 3, 1, 3, 2, 1));
    lemma_tm(p, -162, 0, 1, 3, 1, 1, 2, 1, -3, 1, 1, 0, 0, 0, 2, 1);
    assert(t27 * s3 == (486) * mn(p, 1, 2, 3, 1, 1, 4, 2));
    lemma_tm(p, -162, 0, 1, 3, 1, 1, 2, 1, 6, 1, 0, 1, 1, 1, 0, 0);
    assert(t27 * s4 == (-972) * mn(p, 1, 1, 4, 2, 2, 2, 1));
    lemma_tm(p, -162, 0, 1, 3, 1, 1, 2, 1, -6, 1, 0, 1, 0, 1, 1, 1);
    assert(t27 * s5 == (972) * mn(p, 1, 1, 4, 1, 2, 3, 2));
    lemma_tm(p, -162, 0, 1, 3, 1, 1, 2, 1, 1, 0, 2, 0, 1, 1, 0, 0);
    assert(t27 * s6 == (-162) * mn(p, 0, 3, 3, 2, 2, 2, 1));
    lemma_tm(p, -162, 0, 1, 3, 1, 1, 2, 1, 3, 0, 1, 1, 2, 0, 0, 0);
    assert(t27 * s7 == (-486) * mn(p, 0, 2, 4, 3, 1, 2, 1));
    lemma_tm(p, -162, 0, 1, 3, 1, 1, 2, 1, -6, 0, 1, 1, 1, 0, 1, 1);
    assert(t27 * s8 == (972) * mn(p, 0, 2, 4, 2, 1, 3, 2));
    lemma_tm(p, -162, 0, 1, 3, 1, 1, 2, 1, 9, 0, 1, 1, 0, 0, 2, 0);
    assert(t27 * s9 == (-1458) * mn(p, 0, 2, 4, 1, 1, 4, 1));
    lemma_tm(p, -162, 0, 1, 3, 1, 1, 2, 1, -3, 0, 0, 2, 1, 1, 0, 1);
    assert(t27 * s10 == (486) * mn(p, 0, 1, 5, 2, 2, 2, 2));
    lemma_tm(p, -162, 0, 1, 3, 1, 1, 2, 1, 9, 0, 0, 2, 0, 1, 1, 0);
    assert(t27 * s11 == (-1458) * mn(p, 0, 1, 5, 1, 2, 3, 1));
    assert(t27 * q == (-486) * mn(p, 2, 1, 3, 1, 2, 3, 1) + (-972) * mn(p, 1, 2, 3, 2, 1, 3, 1) + (-162) * mn(p, 1, 2, 3, 1, 3, 2, 1) + (486) * mn(p, 1, 2, 3, 1, 1, 4, 2) + (-972) * mn(p, 1, 1, 4, 2, 2, 2, 1) + (972) * mn(p, 1, 1, 4, 1, 2, 3, 2) + (-162) * mn(p, 0, 3, 3, 2, 2, 2, 1) + (-486) * mn(p, 0, 2, 4, 3, 1, 2, 1) + (972) * mn(p, 0, 2, 4, 2, 1, 3, 2) + (-1458) * mn(p, 0, 2, 4, 1, 1, 4, 1) + (486) * mn(p, 0, 1, 5, 2, 2, 2, 2) + (-1458) * mn(p, 0, 1, 5, 1, 2, 3, 1));
    lemma_tm(p, 162, 0, 1, 3, 0, 1, 3, 0, 3, 2, 0, 0, 0, 1, 1, 0);
    assert(t28 * s0 == (486) * mn(p, 2, 1, 3, 0, 2, 4, 0));
    lemma_tm(p, 162, 0, 1, 3, 0, 1, 3, 0, 6, 1, 1, 0, 1, 0, 1, 0);
    assert(t28 * s1 == (972) * mn(p, 1, 2, 3, 1, 1, 4, 0));
    lemma_tm(p, 162, 0, 1, 3, 0, 1, 3, 0, 1, 1, 1, 0, 0, 2, 0, 0);
    assert(t28 * s2 == (162) * mn(p, 1, 2, 3, 0, 3, 3, 0));
    lemma_tm(p, 162, 0, 1, 3, 0, 1, 3, 0, -3, 1, 1, 0, 0, 0, 2, 1);
    assert(t28 * s3 == (-486) * mn(p, 1, 2, 3, 0, 1, 5, 1));
    lemma_tm(p, 162, 0, 1, 3, 0, 1, 3, 0, 6, 1, 0, 1, 1, 1, 0, 0);
    assert(t28 * s4 == (972) * mn(p, 1, 1, 4, 1, 2, 3, 0));
    lemma_tm(p, 162, 0, 1, 3, 0, 1, 3, 0, -6, 1, 0, 1, 0, 1, 1, 1);
    assert(t28 * s5 == (-972) * mn(p, 1, 1, 4, 0, 2, 4, 1));
    lemma_tm(p, 162, 0, 1, 3, 0, 1, 3, 0, 1, 0, 2, 0, 1, 1, 0, 0);
    assert(t28 * s6 == (162) * mn(p, 0, 3, 3, 1, 2, 3, 0));
    lemma_tm(p, 162, 0, 1, 3, 0, 1, 3, 0, 3, 0, 1, 1, 2, 0, 0, 0);
    assert(t28 * s7 == (486) * mn(p, 0, 2, 4, 2, 1, 3, 0));
    lemma_tm(p, 162, 0, 1, 3, 0, 1, 3, 0, -6, 0, 1, 1, 1, 0, 1, 1);
    assert(t28 * s8 == (-972) * mn(p, 0, 2, 4, 1, 1, 4, 1));
    lemma_tm(p, 162, 0, 1, 3, 0, 1, 3, 0, 9, 0, 1, 1, 0, 0, 2, 0);
    assert(t28 * s9 == (1458) * mn(p, 0, 2, 4, 0, 1, 5, 0));
    lemma_tm(p, 162, 0, 1, 3, 0, 1, 3, 0, -3, 0, 0, 2, 1, 1, 0, 1);
    assert(t28 * s10 == (-486) * mn(p, 0, 1, 5, 1, 2, 3, 1));
    lemma_tm(p, 162, 0, 1, 3, 0, 1, 3, 0, 9, 0, 0, 2, 0, 1, 1, 0);
    assert(t28 * s11 == (1458) * mn(p, 0, 1, 5, 0, 2, 4, 0));
    assert(t28 * q == (486) * mn(p, 2, 1, 3, 0, 2, 4, 0) + (972) * mn(p, 1, 2, 3, 1, 1, 4, 0) + (162) * mn(p, 1, 2, 3, 0, 3, 3, 0) + (-486) * mn(p, 1, 2, 3, 0, 1, 5, 1) + (972) * mn(p, 1, 1, 4, 1, 2, 3, 0) + (-972) * mn(p, 1, 1, 4, 0, 2, 4, 1) + (162) * mn(p, 0, 3, 3, 1, 2, 3, 0) + (486) * mn(p, 0, 2, 4, 2, 1, 3, 0) + (-972) * mn(p, 0, 2, 4, 1, 1, 4, 1) + (1458) * mn(p, 0, 2, 4, 0, 1, 5, 0) + (-486) * mn(p, 0, 1, 5, 1, 2, 3, 1) + (1458) * mn(p, 0, 1, 5, 0, 2, 4, 0));
    lemma_tm(p, 9, 0, 0, 4, 2, 2, 0, 2, 3, 2, 0, 0, 0, 1, 1, 0);
    assert(t29 * s0 == (27) * mn(p, 2, 0, 4, 2, 3, 1, 2));
    lemma_tm(p, 9, 0, 0, 4, 2, 2, 0, 2, 6, 1, 1, 0, 1, 0, 1, 0);
    assert(t29 * s1 == (54) * mn(p, 1, 1, 4, 3, 2, 1, 2));
    lemma_tm(p, 9, 0, 0, 4, 2, 2, 0, 2, 1, 1, 1, 0, 0, 2, 0, 0);
    assert(t29 * s2 == (9) * mn(p, 1, 1, 4, 2, 4, 0, 2));
    lemma_tm(p, 9, 0, 0, 4, 2, 2, 0, 2, -3, 1, 1, 0, 0, 0, 2, 1);
    assert(t29 * s3 == (-27) * mn(p, 1, 1, 4, 2, 2, 2, 3));
    lemma_tm(p, 9, 0, 0, 4, 2, 2, 0, 2, 6, 1, 0, 1, 1, 1, 0, 0);
    assert(t29 * s4 == (54) * mn(p, 1, 0, 5, 3, 3, 0, 2));
    lemma_tm(p, 9, 0, 0, 4, 2, 2, 0, 2, -6, 1, 0, 1, 0, 1, 1, 1);
    assert(t29 * s5 == (-54) * mn(p, 1, 0, 5, 2, 3, 1, 3));
    lemma_tm(p, 9, 0, 0, 4, 2, 2, 0, 2, 1, 0, 2, 0, 1, 1, 0, 0);
    assert(t29 * s6 == (9) * mn(p, 0, 2, 4, 3, 3, 0, 2));
    lemma_tm(p, 9, 0, 0, 4, 2, 2, 0, 2, 3, 0, 1, 1, 2, 0, 0, 0);
    assert(t29 * s7 == (27) * mn(p, 0, 1, 5, 4, 2, 0, 2));
    lemma_tm(p, 9, 0, 0, 4, 2, 2, 0, 2, -6, 0, 1, 1, 1, 0, 1, 1);
    assert(t29 * s8 == (-54) * mn(p, 0, 1, 5, 3, 2, 1, 3));
    lemma_tm(p, 9, 0, 0, 4, 2, 2, 0, 2, 9, 0, 1, 1, 0, 0, 2, 0);
    assert(t29 * s9 == (81) * mn(p, 0, 1, 5, 2, 2, 2, 2));
    lemma_tm(p, 9, 0, 0, 4, 2, 2, 0, 2, -3, 0, 0, 2, 1, 1, 0, 1);
    assert(t29 * s10 == (-27) * mn(p, 0, 0, 6, 3, 3, 0, 3));
    lemma_tm(p, 9, 0, 0, 4, 2, 2, 0, 2, 9, 0, 0, 2, 0, 1, 1, 0);
    assert(t29 * s11 == (81) * mn(p, 0, 0, 6, 2, 3, 1, 2));
    assert(t29 * q == (27) * mn(p, 2, 0, 4, 2, 3, 1, 2) + (54) * mn(p, 1, 1, 4, 3, 2, 1, 2) + (9) * mn(p, 1, 1, 4, 2, 4, 0, 2) + (-27) * mn(p, 1, 1, 4, 2, 2, 2, 3) + (54) * mn(p, 1, 0, 5, 3, 3, 0, 2) + (-54) * mn(p, 1, 0, 5, 2, 3, 1, 3) + (9) * mn(p, 0, 2, 4, 3, 3, 0, 2) + (27) * mn(p, 0, 1, 5, 4, 2, 0, 2) + (-54) * mn(p, 0, 1, 5, 3, 2, 1, 3) + (81) * mn(p, 0, 1, 5, 2, 2, 2, 2) + (-27) * mn(p, 0, 0, 6, 3, 3, 0, 3) + (81) * mn(p, 0, 0, 6, 2, 3, 1, 2));
    lemma_tm(p, -54, 0, 0, 4, 1, 2, 1, 1, 3, 2, 0, 0, 0, 1, 1, 0);
    assert(t30 * s0 == (-162) * mn(p, 2, 0, 4, 1, 3, 2, 1));
    lemma_tm(p, -54, 0, 0, 4, 1, 2, 1, 1, 6, 1, 1, 0, 1, 0, 1, 0);
    assert(t30 * s1 == (-324) * mn(p, 1, 1, 4, 2, 2, 2, 1));
    lemma_tm(p, -54, 0, 0, 4, 1, 2, 1, 1, 1, 1, 1, 0, 0, 2, 0, 0);
    assert(t30 * s2 == (-54) * mn(p, 1, 1, 4, 1, 4, 1, 1));
    lemma_tm(p, -54, 0, 0, 4, 1, 2, 1, 1, -3, 1, 1, 0, 0, 0, 2, 1);
    assert(t30 * s3 == (162) * mn(p, 1, 1, 4, 1, 2, 3, 2));
    lemma_tm(p, -54, 0, 0, 4, 1, 2, 1, 1, 6, 1, 0, 1, 1, 1, 0, 0);
    assert(t30 * s4 == (-324) * mn(p, 1, 0, 5, 2, 3, 1, 1));
    lemma_tm(p, -54, 0, 0, 4, 1, 2, 1, 1, -6, 1, 0, 1, 0, 1, 1, 1);
    assert(t30 * s5 == (324) * mn(p, 1, 0, 5, 1, 3, 2, 2));
    lemma_tm(p, -54, 0, 0, 4, 1, 2, 1, 1, 1, 0, 2, 0, 1, 1, 0, 0);
    assert(t30 * s6 == (-54) * mn(p, 0, 2, 4, 2, 3, 1, 1));
    lemma_tm(p, -54, 0, 0, 4, 1, 2, 1, 1, 3, 0, 1, 1, 2, 0, 0, 0);
    assert(t30 * s7 == (-162) * mn(p, 0, 1, 5, 3, 2, 1, 1));
    lemma_tm(p, -54, 0, 0, 4, 1, 2, 1, 1, -6, 0, 1, 1, 1, 0, 1, 1);
    assert(t30 * s8 == (324) * mn(p, 0, 1, 5, 2, 2, 2, 2));
    lemma_tm(p, -54, 0, 0, 4, 1, 2, 1, 1, 9, 0, 1, 1, 0, 0, 2, 0);
    assert(t30 * s9 == (-486) * mn(p, 0, 1, 5, 1, 2, 3, 1));
    lemma_tm(p, -54, 0, 0, 4, 1, 2, 1, 1, -3, 0, 0, 2, 1, 1, 0, 1);
    assert(t30 * s10 == (162) * mn(p, 0, 0, 6, 2, 3, 1, 2));
    lemma_tm(p, -54, 0, 0, 4, 1, 2, 1, 1, 9, 0, 0, 2, 0, 1, 1, 0);
    assert(t30 * s11 == (-486) * mn(p, 0, 0, 6, 1, 3, 2, 1));
    assert(t30 * q == (-162) * mn(p, 2, 0, 4, 1, 3, 2, 1) + (-324) * mn(p, 1, 1, 4, 2, 2, 2, 1) + (-54) * mn(p, 1, 1, 4, 1, 4, 1, 1) + (162) * mn(p, 1, 1, 4, 1, 2, 3, 2) + (-324) * mn(p, 1, 0, 5, 2, 3, 1, 1) + (324) * mn(p, 1, 0, 5, 1, 3, 2, 2) + (-54) * mn(p, 0, 2, 4, 2, 3, 1, 1) + (-162) * mn(p, 0, 1, 5, 3, 2, 1, 1) + (324) * mn(p, 0, 1, 5, 2, 2, 2, 2) + (-486) * mn(p, 0, 1, 5, 1, 2, 3, 1) + (162) * mn(p, 0, 0, 6, 2, 3, 1, 2) + (-486) * mn(p, 0, 0, 6, 1, 3, 2, 1));
    lemma_tm(p, 81, 0, 0, 4, 0, 2, 2, 0, 3, 2, 0, 0, 0, 1, 1, 0);
    assert(t31 * s0 == (243) * mn(p, 2, 0, 4, 0, 3, 3, 0));
    lemma_tm(p, 81, 0, 0, 4, 0, 2, 2, 0, 6, 1, 1, 0, 1, 0, 1, 0);
    assert(t31 * s1 == (486) * mn(p, 1, 1, 4, 1, 2, 3, 0));
    lemma_tm(p, 81, 0, 0, 4, 0, 2, 2, 0, 1, 1, 1, 0, 0, 2, 0, 0);
    assert(t31 * s2 == (81) * mn(p, 1, 1, 4, 0, 4, 2, 0));
    lemma_tm(p, 81, 0, 0, 4, 0, 2, 2, 0, -3, 1, 1, 0, 0, 0, 2, 1);
    assert(t31 * s3 == (-243) * mn(p, 1, 1, 4, 0, 2, 4, 1));
    lemma_tm(p, 81, 0, 0, 4, 0, 2, 2, 0, 6, 1, 0, 1, 1, 1, 0, 0);
    assert(t31 * s4 == (486) * mn(p, 1, 0, 5, 1, 3, 2, 0));
    lemma_tm(p, 81, 0, 0, 4, 0, 2, 2, 0, -6, 1, 0, 1, 0, 1, 1, 1);
    assert(t31 * s5 == (-486) * mn(p, 1, 0, 5, 0, 3, 3, 1));
    lemma_tm(p, 81, 0, 0, 4, 0, 2, 2, 0, 1, 0, 2, 0, 1, 1, 0, 0);
    assert(t31 * s6 == (81) * mn(p, 0, 2, 4, 1, 3, 2, 0));
    lemma_tm(p, 81, 0, 0, 4, 0, 2, 2, 0, 3, 0, 1, 1, 2, 0, 0, 0);
    assert(t31 * s7 == (243) * mn(p, 0, 1, 5, 2, 2, 2, 0));
    lemma_tm(p, 81, 0, 0, 4, 0, 2, 2, 0, -6, 0, 1, 1, 1, 0, 1, 1);
    assert(t31 * s8 == (-486) * mn(p, 0, 1, 5, 1, 2, 3, 1));
    lemma_tm(p, 81, 0, 0, 4, 0, 2, 2, 0, 9, 0, 1, 1, 0, 0, 2, 0);
    assert(t31 * s9 == (729) * mn(p, 0, 1, 5, 0, 2, 4, 0));
    lemma_tm(p, 81, 0, 0, 4, 0, 2, 2, 0, -3, 0, 0, 2, 1, 1, 0, 1);
    assert(t31 * s10 == (-243) * mn(p, 0, 0, 6, 1, 3, 2, 1));
    lemma_tm(p, 81, 0, 0, 4, 0, 2, 2, 0, 9, 0, 0, 2, 0, 1, 1, 0);
    assert(t31 * s11 == (729) * mn(p, 0, 0, 6, 0, 3, 3, 0));
    assert(t31 * q == (243) * mn(p, 2, 0, 4, 0, 3, 3, 0) + (486) * mn(p, 1, 1, 4, 1, 2, 3, 0) + (81) * mn(p, 1, 1, 4, 0, 4, 2, 0) + (-243) * mn(p, 1, 1, 4, 0, 2, 4, 1) + (486) * mn(p, 1, 0, 5, 1, 3, 2, 0) + (-486) * mn(p, 1, 0, 5, 0, 3, 3, 1) + (81) * mn(p, 0, 2, 4, 1, 3, 2, 0) + (243) * mn(p, 0, 1, 5, 2, 2, 2, 0) + (-486) * mn(p, 0, 1, 5, 1, 2, 3, 1) + (729) * mn(p, 0, 1, 5, 0, 2, 4, 0) + (-243) * mn(p, 0, 0, 6, 1, 3, 2, 1) + (729) * mn(p, 0, 0, 6, 0, 3, 3, 0));
    assert(pp31 * q == ((((((((-162) * mn(p, 3, 2, 1, 0, 1, 5, 1) + (108) * mn(p, 3, 1, 2, 3, 2, 1, 0)) + ((-432) * mn(p, 3, 1, 2, 2, 2, 2, 1) + ((-18) * mn(p, 3, 1, 2, 1, 4, 1, 1) + (270) * mn(p, 3, 1, 2, 1, 2, 3, 2)))) + (((648) * mn(p, 3, 1, 2, 1, 2, 3, 0) + (54) * mn(p, 3, 1, 2, 0, 4, 2, 0)) + ((-486) * mn(p, 3, 1, 2, 0, 2, 4, 1) + ((-108) * mn(p, 3, 0, 3, 2, 3, 1, 1) + (108) * mn(p, 3, 0, 3, 1, 3, 2, 2))))) + ((((324) * mn(p, 3, 0, 3, 1, 3, 2, 0) + (-324) * mn(p, 3, 0, 3, 0, 3, 3, 1)) + ((3) * mn(p, 2, 4, 0, 2, 3, 1, 0) + ((18) * mn(p, 2, 3, 1, 3, 2, 1, 0) + (-36) * mn(p, 2, 3, 1, 2, 2, 2, 1)))) + (((54) * mn(p, 2, 3, 1, 1, 2, 3, 0) + (-324) * mn(p, 2, 3, 1, 1, 0, 5, 1)) + ((-54) * mn(p, 2, 3, 1, 0, 2, 4, 1) + ((162) * mn(p, 2, 3, 1, 0, 0, 6, 2) + (243) * mn(p, 2, 2, 2, 4, 1, 1, 0)))))) + (((((36) * mn(p, 2, 2, 2, 3, 3, 0, 0) + (-1080) * mn(p, 2, 2, 2, 3, 1, 2, 1)) + ((-198) * mn(p, 2, 2, 2, 2, 3, 1, 1) + ((1080) * mn(p, 2, 2, 2, 2, 1, 3, 2) + (1458) * mn(p, 2, 2, 2, 2, 1, 3, 0)))) + (((-6) * mn(p, 2, 2, 2, 1, 5, 0, 1) + (108) * mn(p, 2, 2, 2, 1, 3, 2, 2)) + ((378) * mn(p, 2, 2, 2, 1, 3, 2, 0) + ((-270) * mn(p, 2, 2, 2, 1, 1, 4, 3) + (-2268) * mn(p, 2, 2, 2, 1, 1, 4, 1))))) + ((((18) * mn(p, 2, 2, 2, 0, 5, 1, 0) + (-216) * mn(p, 2, 2, 2, 0, 3, 3, 1)) + ((810) * mn(p, 2, 2, 2, 0, 1, 5, 2) + ((243) * mn(p, 2, 2, 2, 0, 1, 5, 0) + (216) * mn(p, 2, 1, 3, 4, 2, 0, 0)))) + (((-1350) * mn(p, 2, 1, 3, 3, 2, 1, 1) + (-72) * mn(p, 2, 1, 3, 2, 4, 0, 1)) + ((1836) * mn(p, 2, 1, 3, 2, 2, 2, 2) + ((2106) * mn(p, 2, 1, 3, 2, 2, 2, 0) + (72) * mn(p, 2, 1, 3, 1, 4, 1, 2))))))) + ((((((216) * mn(p, 2, 1, 3, 1, 4, 1, 0) + (-648) * mn(p, 2, 1, 3, 1, 2, 3, 3)) + ((-3726) * mn(p, 2, 1, 3, 1, 2, 3, 1) + ((-216) * mn(p, 2, 1, 3, 0, 4, 2, 1) + (1296) * mn(p, 2, 1, 3, 0, 2, 4, 2)))) + (((486) * mn(p, 2, 1, 3, 0, 2, 4, 0) + (-216) * mn(p, 2, 0, 4, 3, 3, 0, 1)) + ((459) * mn(p, 2, 0, 4, 2, 3, 1, 2) + ((648) * mn(p, 2, 0, 4, 2, 3, 1, 0) + (-216) * mn(p, 2, 0, 4, 1, 3, 2, 3))))) + ((((-1458) * mn(p, 2, 0, 4, 1, 3, 2, 1) + (648) * mn(p, 2, 0, 4, 0, 3, 3, 2)) + ((243) * mn(p, 2, 0, 4, 0, 3, 3, 0) + ((6) * mn(p, 1, 5, 0, 3, 2, 1, 0) + (1) * mn(p, 1, 5, 0, 2, 4, 0, 0)))) + (((-3) * mn(p, 1, 5, 0, 2, 2, 2, 1) + (36) * mn(p, 1, 4, 1, 4, 1, 1, 0)) + ((12) * mn(p, 1, 4, 1, 3, 3, 0, 0) + ((-90) * mn(p, 1, 4, 1, 3, 1, 2, 1) + (-18) * mn(p, 1, 4, 1, 2, 3, 1, 1)))))) + (((((36) * mn(p, 1, 4, 1, 2, 1, 3, 2) + (108) * mn(p, 1, 4, 1, 2, 1, 3, 0)) + ((18) * mn(p, 1, 4, 1, 1, 3, 2, 0) + ((-108) * mn(p, 1, 4, 1, 1, 1, 4, 1) + (54) * mn(p, 1, 3, 2, 5, 0, 1, 0)))) + (((81) * mn(p, 1, 3, 2, 4, 2, 0, 0) + (-243) * mn(p, 1, 3, 2, 4, 0, 2, 1)) + ((-324) * mn(p, 1, 3, 2, 3, 2, 1, 1) + ((324) * mn(p, 1, 3, 2, 3, 0, 3, 2) + (324) * mn(p, 1, 3, 2, 3, 0, 3, 0))))) + ((((-12) * mn(p, 1, 3, 2, 2, 4, 0, 1) + (216) * mn(p, 1, 3, 2, 2, 2, 2, 2)) + ((486) * mn(p, 1, 3, 2, 2, 2, 2, 0) + ((-108) * mn(p, 1, 3, 2, 2, 0, 4, 3) + (-972) * mn(p, 1, 3, 2, 2, 0, 4, 1)))) + (((36) * mn(p, 1, 3, 2, 1, 4, 1, 0) + ((-432) * mn(p, 1, 3, 2, 1, 2, 3, 1) + (648) * mn(p, 1, 3, 2, 1, 0, 5, 2))) + ((486) * mn(p, 1, 3, 2, 1, 0, 5, 0) + ((81) * mn(p, 1, 3, 2, 0, 2, 4, 0) + (-729) * mn(p, 1, 3, 2, 0, 0, 6, 1)))))))) + (((((((162) * mn(p, 1, 2, 3, 5, 1, 0, 0) + (-1026) * mn(p, 1, 2, 3, 4, 1, 1, 1)) + ((-108) * mn(p, 1, 2, 3, 3, 3, 0, 1) + ((1836) * mn(p, 1, 2, 3, 3, 1, 2, 2) + (1620) * mn(p, 1, 2, 3, 3, 1, 2, 0)))) + (((144) * mn(p, 1, 2, 3, 2, 3, 1, 2) + (324) * mn(p, 1, 2, 3, 2, 3, 1, 0)) + ((-864) * mn(p, 1, 2, 3, 2, 1, 3, 3) + ((-5184) * mn(p, 1, 2, 3, 2, 1, 3, 1) + (-540) * mn(p, 1, 2, 3, 1, 3, 2, 1))))) + ((((3078) * mn(p, 1, 2, 3, 1, 1, 4, 2) + (3402) * mn(p, 1, 2, 3, 1, 1, 4, 0)) + ((324) * mn(p, 1, 2, 3, 0, 3, 3, 0) + ((-2916) * mn(p, 1, 2, 3, 0, 1, 5, 1) + (-324) * mn(p, 1, 1, 4, 4, 2, 0, 1)))) + (((1134) * mn(p, 1, 1, 4, 3, 2, 1, 2) + (972) * mn(p, 1, 1, 4, 3, 2, 1, 0)) + ((27) * mn(p, 1, 1, 4, 2, 4, 0, 2) + ((-729) * mn(p, 1, 1, 4, 2, 2, 2, 3) + (-4860) * mn(p, 1, 1, 4, 2, 2, 2, 1)))))) + (((((-162) * mn(p, 1, 1, 4, 1, 4, 1, 1) + (3402) * mn(p, 1, 1, 4, 1, 2, 3, 2)) + ((4374) * mn(p, 1, 1, 4, 1, 2, 3, 0) + ((243) * mn(p, 1, 1, 4, 0, 4, 2, 0) + (-3645) * mn(p, 1, 1, 4, 0, 2, 4, 1)))) + (((162) * mn(p, 1, 0, 5, 3, 3, 0, 2) + (-162) * mn(p, 1, 0, 5, 2, 3, 1, 3)) + ((-972) * mn(p, 1, 0, 5, 2, 3, 1, 1) + ((972) * mn(p, 1, 0, 5, 1, 3, 2, 2) + (1458) * mn(p, 1, 0, 5, 1, 3, 2, 0))))) + ((((-1458) * mn(p, 1, 0, 5, 0, 3, 3, 1) + (1) * mn(p, 0, 6, 0, 3, 3, 0, 0)) + ((9) * mn(p, 0, 5, 1, 4, 2, 0, 0) + ((-18) * mn(p, 0, 5, 1, 3, 2, 1, 1) + (27) * mn(p, 0, 5, 1, 2, 2, 2, 0)))) + (((27) * mn(p, 0, 4, 2, 5, 1, 0, 0) + (-108) * mn(p, 0, 4, 2, 4, 1, 1, 1)) + ((-9) * mn(p, 0, 4, 2, 3, 3, 0, 1) + ((108) * mn(p, 0, 4, 2, 3, 1, 2, 2) + (162) * mn(p, 0, 4, 2, 3, 1, 2, 0))))))) + ((((((27) * mn(p, 0, 4, 2, 2, 3, 1, 0) + (-324) * mn(p, 0, 4, 2, 2, 1, 3, 1)) + ((243) * mn(p, 0, 4, 2, 1, 1, 4, 0) + ((27) * mn(p, 0, 3, 3, 6, 0, 0, 0) + (-162) * mn(p, 0, 3, 3, 5, 0, 1, 1)))) + (((-54) * mn(p, 0, 3, 3, 4, 2, 0, 1) + (324) * mn(p, 0, 3, 3, 4, 0, 2, 2)) + ((243) * mn(p, 0, 3, 3, 4, 0, 2, 0) + ((108) * mn(p, 0, 3, 3, 3, 2, 1, 2) + (162) * mn(p, 0, 3, 3, 3, 2, 1, 0))))) + ((((-216) * mn(p, 0, 3, 3, 3, 0, 3, 3) + (-972) * mn(p, 0, 3, 3, 3, 0, 3, 1)) + ((-486) * mn(p, 0, 3, 3, 2, 2, 2, 1) + ((972) * mn(p, 0, 3, 3, 2, 0, 4, 2) + (729) * mn(p, 0, 3, 3, 2, 0, 4, 0)))) + (((486) * mn(p, 0, 3, 3, 1, 2, 3, 0) + (-1458) * mn(p, 0, 3, 3, 1, 0, 5, 1)) + ((729) * mn(p, 0, 3, 3, 0, 0, 6, 0) + ((-81) * mn(p, 0, 2, 4, 5, 1, 0, 1) + (324) * mn(p, 0, 2, 4, 4, 1, 1, 2)))))) + (((((243) * mn(p, 0, 2, 4, 4, 1, 1, 0) + (27) * mn(p, 0, 2, 4, 3, 3, 0, 2)) + ((-324) * mn(p, 0, 2, 4, 3, 1, 2, 3) + ((-1458) * mn(p, 0, 2, 4, 3, 1, 2, 1) + (-162) * mn(p, 0, 2, 4, 2, 3, 1, 1)))) + (((1944) * mn(p, 0, 2, 4, 2, 1, 3, 2) + (1458) * mn(p, 0, 2, 4, 2, 1, 3, 0)) + ((243) * mn(p, 0, 2, 4, 1, 3, 2, 0) + ((-3645) * mn(p, 0, 2, 4, 1, 1, 4, 1) + (2187) * mn(p, 0, 2, 4, 0, 1, 5, 0))))) + ((((81) * mn(p, 0, 1, 5, 4, 2, 0, 2) + (-162) * mn(p, 0, 1, 5, 3, 2, 1, 3)) + ((-486) * mn(p, 0, 1, 5, 3, 2, 1, 1) + ((1215) * mn(p, 0, 1, 5, 2, 2, 2, 2) + (729) * mn(p, 0, 1, 5, 2, 2, 2, 0)))) + (((-2916) * mn(p, 0, 1, 5, 1, 2, 3, 1) + ((2187) * mn(p, 0, 1, 5, 0, 2, 4, 0) + (-27) * mn(p, 0, 0, 6, 3, 3, 0, 3))) + ((243) * mn(p, 0, 0, 6, 2, 3, 1, 2) + ((-729) * mn(p, 0, 0, 6, 1, 3, 2, 1) + (729) * mn(p, 0, 0, 6, 0, 3, 3, 0))))))))));
    assert(pp31 == ((((((-54) * mn(p, 1, 2, 1, 0, 0, 4, 1) + (36) * mn(p, 1, 1, 2, 3, 1, 0, 0)) + ((-144) * mn(p, 1, 1, 2, 2, 1, 1, 1) + (-6) * mn(p, 1, 1, 2, 1, 3, 0, 1))) + (((90) * mn(p, 1, 1, 2, 1, 1, 2, 2) + (216) * mn(p, 1, 1, 2, 1, 1, 2, 0)) + ((18) * mn(p, 1, 1, 2, 0, 3, 1, 0) + (-162) * mn(p, 1, 1, 2, 0, 1, 3, 1)))) + ((((-36) * mn(p, 1, 0, 3, 2, 2, 0, 1) + (36) * mn(p, 1, 0, 3, 1, 2, 1, 2)) + ((108) * mn(p, 1, 0, 3, 1, 2, 1, 0) + (-108) * mn(p, 1, 0, 3, 0, 2, 2, 1))) + (((1) * mn(p, 0, 4, 0, 2, 2, 0, 0) + (6) * mn(p, 0, 3, 1, 3, 1, 0, 0)) + ((-12) * mn(p, 0, 3, 1, 2, 1, 1, 1) + (18) * mn(p, 0, 3, 1, 1, 1, 2, 0))))) + (((((9) * mn(p, 0, 2, 2, 4, 0, 0, 0) + (-36) * mn(p, 0, 2, 2, 3, 0, 1, 1)) + ((-6) * mn(p, 0, 2, 2, 2, 2, 0, 1) + (36) * mn(p, 0, 2, 2, 2, 0, 2, 2))) + (((54) * mn(p, 0, 2, 2, 2, 0, 2, 0) + (18) * mn(p, 0, 2, 2, 1, 2, 1, 0)) + ((-108) * mn(p, 0, 2, 2, 1, 0, 3, 1) + (81) * mn(p, 0, 2, 2, 0, 0, 4, 0)))) + ((((-18) * mn(p, 0, 1, 3, 3, 1, 0, 1) + (36) * mn(p, 0, 1, 3, 2, 1, 1, 2)) + ((54) * mn(p, 0, 1, 3, 2, 1, 1, 0) + (-162) * mn(p, 0, 1, 3, 1, 1, 2, 1))) + (((162) * mn(p, 0, 1, 3, 0, 1, 3, 0) + (9) * mn(p, 0, 0, 4, 2, 2, 0, 2)) + ((-54) * mn(p, 0, 0, 4, 1, 2, 1, 1) + (81) * mn(p, 0, 0, 4, 0, 2, 2, 0)))))));
    assert(q == ((((3) * mn(p, 2, 0, 0, 0, 1, 1, 0) + ((6) * mn(p, 1, 1, 0, 1, 0, 1, 0) + (1) * mn(p, 1, 1, 0, 0, 2, 0, 0))) + ((-3) * mn(p, 1, 1, 0, 0, 0, 2, 1) + ((6) * mn(p, 1, 0, 1, 1, 1, 0, 0) + (-6) * mn(p, 1, 0, 1, 0, 1, 1, 1)))) + (((1) * mn(p, 0, 2, 0, 1, 1, 0, 0) + ((3) * mn(p, 0, 1, 1, 2, 0, 0, 0) + (-6) * mn(p, 0, 1, 1, 1, 0, 1, 1))) + ((9) * mn(p, 0, 1, 1, 0, 0, 2, 0) + ((-3) * mn(p, 0, 0, 2, 1, 1, 0, 1) + (9) * mn(p, 0, 0, 2, 0, 1, 1, 0))))));
}

#[verifier::rlimit(100)]
proof fn acb_prod10(p: Pt)
    ensures
        (((((3) * mn(p, 2, 0, 0, 0, 1, 1, 0) + ((6) * mn(p, 1, 1, 0, 1, 0, 1, 0) + (1) * mn(p, 1, 1, 0, 0, 2, 0, 0))) + ((-3) * mn(p, 1, 1, 0, 0, 0, 2, 1) + ((6) * mn(p, 1, 0, 1, 1, 1, 0, 0) + (-6) * mn(p, 1, 0, 1, 0, 1, 1, 1)))) + (((1) * mn(p, 0, 2, 0, 1, 1, 0, 0) + ((3) * mn(p, 0, 1, 1, 2, 0, 0, 0) + (-6) * mn(p, 0, 1, 1, 1, 0, 1, 1))) + ((9) * mn(p, 0, 1, 1, 0, 0, 2, 0) + ((-3) * mn(p, 0, 0, 2, 1, 1, 0, 1) + (9) * mn(p, 0, 0, 2, 0, 1, 1, 0)))))) * (((((3) * mn(p, 2, 0, 0, 1, 1, 0, 0) + (3) * mn(p, 1, 1, 0, 2, 0, 0, 0)) + ((-3) * mn(p, 1, 1, 0, 0, 0, 2, 0) + ((-6) * mn(p, 1, 0, 1, 0, 1, 1, 0) + (1) * mn(p, 0, 2, 0, 0, 1, 1, 0)))) + (((-6) * mn(p, 0, 1, 1, 1, 0, 1, 0) + (1) * mn(p, 0, 1, 1, 0, 2, 0, 0)) + ((3) * mn(p, 0, 1, 1, 0, 0, 2, 1) + ((-3) * mn(p, 0, 0, 2, 1, 1, 0, 0) + (3) * mn(p, 0, 0, 2, 0, 1, 1, 1)))))) == (((((((9) * mn(p, 4, 0, 0, 1, 2, 1, 0) + (27) * mn(p, 3, 1, 0, 2, 1, 1, 0)) + ((3) * mn(p, 3, 1, 0, 1, 3, 0, 0) + (-9) * mn(p, 3, 1, 0, 1, 1, 2, 1))) + (((-9) * mn(p, 3, 1, 0, 0, 1, 3, 0) + (18) * mn(p, 3, 0, 1, 2, 2, 0, 0)) + ((-18) * mn(p, 3, 0, 1, 1, 2, 1, 1) + (-18) * mn(p, 3, 0, 1, 0, 2, 2, 0)))) + ((((18) * mn(p, 2, 2, 0, 3, 0, 1, 0) + (6) * mn(p, 2, 2, 0, 2, 2, 0, 0)) + ((-9) * mn(p, 2, 2, 0, 2, 0, 2, 1) + (-18) * mn(p, 2, 2, 0, 1, 0, 3, 0))) + (((9) * mn(p, 2, 2, 0, 0, 0, 4, 1) + (27) * mn(p, 2, 1, 1, 3, 1, 0, 0)) + ((-36) * mn(p, 2, 1, 1, 2, 1, 1, 1) + (-45) * mn(p, 2, 1, 1, 1, 1, 2, 0))))) + (((((-3) * mn(p, 2, 1, 1, 0, 3, 1, 0) + (45) * mn(p, 2, 1, 1, 0, 1, 3, 1)) + ((-9) * mn(p, 2, 0, 2, 2, 2, 0, 1) + (-18) * mn(p, 2, 0, 2, 1, 2, 1, 0))) + (((45) * mn(p, 2, 0, 2, 0, 2, 2, 1) + (3) * mn(p, 1, 3, 0, 3, 1, 0, 0)) + ((3) * mn(p, 1, 3, 0, 1, 1, 2, 0) + (1) * mn(p, 1, 3, 0, 0, 3, 1, 0)))) + ((((-3) * mn(p, 1, 3, 0, 0, 1, 3, 1) + (9) * mn(p, 1, 2, 1, 4, 0, 0, 0)) + ((-18) * mn(p, 1, 2, 1, 3, 0, 1, 1) + (-18) * mn(p, 1, 2, 1, 2, 0, 2, 0))) + (((54) * mn(p, 1, 2, 1, 1, 0, 3, 1) + (1) * mn(p, 1, 2, 1, 0, 4, 0, 0)) + ((-6) * mn(p, 1, 2, 1, 0, 2, 2, 1) + ((-9) * mn(p, 1, 2, 1, 0, 0, 4, 2) + (-27) * mn(p, 1, 2, 1, 0, 0, 4, 0))))))) + ((((((-9) * mn(p, 1, 1, 2, 3, 1, 0, 1) + (-45) * mn(p, 1, 1, 2, 2, 1, 1, 0)) + ((3) * mn(p, 1, 1, 2, 1, 3, 0, 0) + (126) * mn(p, 1, 1, 2, 1, 1, 2, 1))) + (((-3) * mn(p, 1, 1, 2, 0, 3, 1, 1) + (-27) * mn(p, 1, 1, 2, 0, 1, 3, 2)) + ((-81) * mn(p, 1, 1, 2, 0, 1, 3, 0) + (-18) * mn(p, 1, 0, 3, 2, 2, 0, 0)))) + ((((54) * mn(p, 1, 0, 3, 1, 2, 1, 1) + (-18) * mn(p, 1, 0, 3, 0, 2, 2, 2)) + ((-54) * mn(p, 1, 0, 3, 0, 2, 2, 0) + (1) * mn(p, 0, 4, 0, 1, 2, 1, 0))) + (((-3) * mn(p, 0, 3, 1, 2, 1, 1, 0) + (1) * mn(p, 0, 3, 1, 1, 3, 0, 0)) + ((-3) * mn(p, 0, 3, 1, 1, 1, 2, 1) + ((9) * mn(p, 0, 3, 1, 0, 1, 3, 0) + (-18) * mn(p, 0, 2, 2, 3, 0, 1, 0)))))) + (((((45) * mn(p, 0, 2, 2, 2, 0, 2, 1) + (-6) * mn(p, 0, 2, 2, 1, 2, 1, 1)) + ((-18) * mn(p, 0, 2, 2, 1, 0, 3, 2) + (-54) * mn(p, 0, 2, 2, 1, 0, 3, 0))) + (((18) * mn(p, 0, 2, 2, 0, 2, 2, 0) + (27) * mn(p, 0, 2, 2, 0, 0, 4, 1)) + ((-9) * mn(p, 0, 1, 3, 3, 1, 0, 0) + (45) * mn(p, 0, 1, 3, 2, 1, 1, 1)))) + ((((-3) * mn(p, 0, 1, 3, 1, 3, 0, 1) + (-27) * mn(p, 0, 1, 3, 1, 1, 2, 2)) + ((-81) * mn(p, 0, 1, 3, 1, 1, 2, 0) + (9) * mn(p, 0, 1, 3, 0, 3, 1, 0))) + (((54) * mn(p, 0, 1, 3, 0, 1, 3, 1) + (9) * mn(p, 0, 0, 4, 2, 2, 0, 1)) + ((-9) * mn(p, 0, 0, 4, 1, 2, 1, 2) + ((-27) * mn(p, 0, 0, 4, 1, 2, 1, 0) + (27) * mn(p, 0, 0, 4, 0, 2, 2, 1)))))))),
{
    let c0 = ((((3) * mn(p, 2, 0, 0, 0, 1, 1, 0) + ((6) * mn(p, 1, 1, 0, 1, 0, 1, 0) + (1) * mn(p, 1, 1, 0, 0, 2, 0, 0))) + ((-3) * mn(p, 1, 1, 0, 0, 0, 2, 1) + ((6) * mn(p, 1, 0, 1, 1, 1, 0, 0) + (-6) * mn(p, 1, 0, 1, 0, 1, 1, 1)))) + (((1) * mn(p, 0, 2, 0, 1, 1, 0, 0) + ((3) * mn(p, 0, 1, 1, 2, 0, 0, 0) + (-6) * mn(p, 0, 1, 1, 1, 0, 1, 1))) + ((9) * mn(p, 0, 1, 1, 0, 0, 2, 0) + ((-3) * mn(p, 0, 0, 2, 1, 1, 0, 1) + (9) * mn(p, 0, 0, 2, 0, 1, 1, 0)))));
    let cc0 = c0;
    assert(cc0 == ((((3) * mn(p, 2, 0, 0, 0, 1, 1, 0) + ((6) * mn(p, 1, 1, 0, 1, 0, 1, 0) + (1) * mn(p, 1, 1, 0, 0, 2, 0, 0))) + ((-3) * mn(p, 1, 1, 0, 0, 0, 2, 1) + ((6) * mn(p, 1, 0, 1, 1, 1, 0, 0) + (-6) * mn(p, 1, 0, 1, 0, 1, 1, 1)))) + (((1) * mn(p, 0, 2, 0, 1, 1, 0, 0) + ((3) * mn(p, 0, 1, 1, 2, 0, 0, 0) + (-6) * mn(p, 0, 1, 1, 1, 0, 1, 1))) + ((9) * mn(p, 0, 1, 1, 0, 0, 2, 0) + ((-3) * mn(p, 0, 0, 2, 1, 1, 0, 1) + (9) * mn(p, 0, 0, 2, 0, 1, 1, 0))))));
    let q = ((((3) * mn(p, 2, 0, 0, 1, 1, 0, 0) + (3) * mn(p, 1, 1, 0, 2, 0, 0, 0)) + ((-3) * mn(p, 1, 1, 0, 0, 0, 2, 0) + ((-6) * mn(p, 1, 0, 1, 0, 1, 1, 0) + (1) * mn(p, 0, 2, 0, 0, 1, 1, 0)))) + (((-6) * mn(p, 0, 1, 1, 1, 0, 1, 0) + (1) * mn(p, 0, 1, 1, 0, 2, 0, 0)) + ((3) * mn(p, 0, 1, 1, 0, 0, 2, 1) + ((-3) * mn(p, 0, 0, 2, 1, 1, 0, 0) + (3) * mn(p, 0, 0, 2, 0, 1, 1, 1)))));
    acb_prod10_c0(p);
    assert(c0 * q == (((((((9) * mn(p, 4, 0, 0, 1, 2, 1, 0) + (27) * mn(p, 3, 1, 0, 2, 1, 1, 0)) + ((3) * mn(p, 3, 1, 0, 1, 3, 0, 0) + (-9) * mn(p, 3, 1, 0, 1, 1, 2, 1))) + (((-9) * mn(p, 3, 1, 0, 0, 1, 3, 0) + (18) * mn(p, 3, 0, 1, 2, 2, 0, 0)) + ((-18) * mn(p, 3, 0, 1, 1, 2, 1, 1) + (-18) * mn(p, 3, 0, 1, 0, 2, 2, 0)))) + ((((18) * mn(p, 2, 2, 0, 3, 0, 1, 0) + (6) * mn(p, 2, 2, 0, 2, 2, 0, 0)) + ((-9) * mn(p, 2, 2, 0, 2, 0, 2, 1) + (-18) * mn(p, 2, 2, 0, 1, 0, 3, 0))) + (((9) * mn(p, 2, 2, 0, 0, 0, 4, 1) + (27) * mn(p, 2, 1, 1, 3, 1, 0, 0)) + ((-36) * mn(p, 2, 1, 1, 2, 1, 1, 1) + (-45) * mn(p, 2, 1, 1, 1, 1, 2, 0))))) + (((((-3) * mn(p, 2, 1, 1, 0, 3, 1, 0) + (45) * mn(p, 2, 1, 1, 0, 1, 3, 1)) + ((-9) * mn(p, 2, 0, 2, 2, 2, 0, 1) + (-18) * mn(p, 2, 0, 2, 1, 2, 1, 0))) + (((45) * mn(p, 2, 0, 2, 0, 2, 2, 1) + (3) * mn(p, 1, 3, 0, 3, 1, 0, 0)) + ((3) * mn(p, 1, 3, 0, 1, 1, 2, 0) + (1) * mn(p, 1, 3, 0, 0, 3, 1, 0)))) + ((((-3) * mn(p, 1, 3, 0, 0, 1, 3, 1) + (9) * mn(p, 1, 2, 1, 4, 0, 0, 0)) + ((-18) * mn(p, 1, 2, 1, 3, 0, 1, 1) + (-18) * mn(p, 1, 2, 1, 2, 0, 2, 0))) + (((54) * mn(p, 1, 2, 1, 1, 0, 3, 1) + (1) * mn(p, 1, 2, 1, 0, 4, 0, 0)) + ((-6) * mn(p, 1, 2, 1, 0, 2, 2, 1) + ((-9) * mn(p, 1, 2, 1, 0, 0, 4, 2) + (-27) * mn(p, 1, 2, 1, 0, 0, 4, 0))))))) + ((((((-9) * mn(p, 1, 1, 2, 3, 1, 0, 1) + (-45) * mn(p, 1, 1, 2, 2, 1, 1, 0)) + ((3) * mn(p, 1, 1, 2, 1, 3, 0, 0) + (126) * mn(p, 1, 1, 2, 1, 1, 2, 1))) + (((-3) * mn(p, 1, 1, 2, 0, 3, 1, 1) + (-27) * mn(p, 1, 1, 2, 0, 1, 3, 2)) + ((-81) * mn(p, 1, 1, 2, 0, 1, 3, 0) + (-18) * mn(p, 1, 0, 3, 2, 2, 0, 0)))) + ((((54) * mn(p, 1, 0, 3, 1, 2, 1, 1) + (-18) * mn(p, 1, 0, 3, 0, 2, 2, 2)) + ((-54) * mn(p, 1, 0, 3, 0, 2, 2, 0) + (1) * mn(p, 0, 4, 0, 1, 2, 1, 0))) + (((-3) * mn(p, 0, 3, 1, 2, 1, 1, 0) + (1) * mn(p, 0, 3, 1, 1, 3, 0, 0)) + ((-3) * mn(p, 0, 3, 1, 1, 1, 2, 1) + ((9) * mn(p, 0, 3, 1, 0, 1, 3, 0) + (-18) * mn(p, 0, 2, 2, 3, 0, 1, 0)))))) + (((((45) * mn(p, 0, 2, 2, 2, 0, 2, 1) + (-6) * mn(p, 0, 2, 2, 1, 2, 1, 1)) + ((-18) * mn(p, 0, 2, 2, 1, 0, 3, 2) + (-54) * mn(p, 0, 2, 2, 1, 0, 3, 0))) + (((18) * mn(p, 0, 2, 2, 0, 2, 2, 0) + (27) * mn(p, 0, 2, 2, 0, 0, 4, 1)) + ((-9) * mn(p, 0, 1, 3, 3, 1, 0, 0) + (45) * mn(p, 0, 1, 3, 2, 1, 1, 1)))) + ((((-3) * mn(p, 0, 1, 3, 1, 3, 0, 1) + (-27) * mn(p, 0, 1, 3, 1, 1, 2, 2)) + ((-81) * mn(p, 0, 1, 3, 1, 1, 2, 0) + (9) * mn(p, 0, 1, 3, 0, 3, 1, 0))) + (((54) * mn(p, 0, 1, 3, 0, 1, 3, 1) + (9) * mn(p, 0, 0, 4, 2, 2, 0, 1)) + ((-9) * mn(p, 0, 0, 4, 1, 2, 1, 2) + ((-27) * mn(p, 0, 0, 4, 1, 2, 1, 0) + (27) * mn(p, 0, 0, 4, 0, 2, 2, 1)))))))));
    assert(cc0 * q == (((((((9) * mn(p, 4, 0, 0, 1, 2, 1, 0) + (27) * mn(p, 3, 1, 0, 2, 1, 1, 0)) + ((3) * mn(p, 3, 1, 0, 1, 3, 0, 0) + (-9) * mn(p, 3, 1, 0, 1, 1, 2, 1))) + (((-9) * mn(p, 3, 1, 0, 0, 1, 3, 0) + (18) * mn(p, 3, 0, 1, 2, 2, 0, 0)) + ((-18) * mn(p, 3, 0, 1, 1, 2, 1, 1) + (-18) * mn(p, 3, 0, 1, 0, 2, 2, 0)))) + ((((18) * mn(p, 2, 2, 0, 3, 0, 1, 0) + (6) * mn(p, 2, 2, 0, 2, 2, 0, 0)) + ((-9) * mn(p, 2, 2, 0, 2, 0, 2, 1) + (-18) * mn(p, 2, 2, 0, 1, 0, 3, 0))) + (((9) * mn(p, 2, 2, 0, 0, 0, 4, 1) + (27) * mn(p, 2, 1, 1, 3, 1, 0, 0)) + ((-36) * mn(p, 2, 1, 1, 2, 1, 1, 1) + (-45) * mn(p, 2, 1, 1, 1, 1, 2, 0))))) + (((((-3) * mn(p, 2, 1, 1, 0, 3, 1, 0) + (45) * mn(p, 2, 1, 1, 0, 1, 3, 1)) + ((-9) * mn(p, 2, 0, 2, 2, 2, 0, 1) + (-18) * mn(p, 2, 0, 2, 1, 2, 1, 0))) + (((45) * mn(p, 2, 0, 2, 0, 2, 2, 1) + (3) * mn(p, 1, 3, 0, 3, 1, 0, 0)) + ((3) * mn(p, 1, 3, 0, 1, 1, 2, 0) + (1) * mn(p, 1, 3, 0, 0, 3, 1, 0)))) + ((((-3) * mn(p, 1, 3, 0, 0, 1, 3, 1) + (9) * mn(p, 1, 2, 1, 4, 0, 0, 0)) + ((-18) * mn(p, 1, 2, 1, 3, 0, 1, 1) + (-18) * mn(p, 1, 2, 1, 2, 0, 2, 0))) + (((54) * mn(p, 1, 2, 1, 1, 0, 3, 1) + (1) * mn(p, 1, 2, 1, 0, 4, 0, 0)) + ((-6) * mn(p, 1, 2, 1, 0, 2, 2, 1) + ((-9) * mn(p, 1, 2, 1, 0, 0, 4, 2) + (-27) * mn(p, 1, 2, 1, 0, 0, 4, 0))))))) + ((((((-9) * mn(p, 1, 1, 2, 3, 1, 0, 1) + (-45) * mn(p, 1, 1, 2, 2, 1, 1, 0)) + ((3) * mn(p, 1, 1, 2, 1, 3, 0, 0) + (126) * mn(p, 1, 1, 2, 1, 1, 2, 1))) + (((-3) * mn(p, 1, 1, 2, 0, 3, 1, 1) + (-27) * mn(p, 1, 1, 2, 0, 1, 3, 2)) + ((-81) * mn(p, 1, 1, 2, 0, 1, 3, 0) + (-18) * mn(p, 1, 0, 3, 2, 2, 0, 0)))) + ((((54) * mn(p, 1, 0, 3, 1, 2, 1, 1) + (-18) * mn(p, 1, 0, 3, 0, 2, 2, 2)) + ((-54) * mn(p, 1, 0, 3, 0, 2, 2, 0) + (1) * mn(p, 0, 4, 0, 1, 2, 1, 0))) + (((-3) * mn(p, 0, 3, 1, 2, 1, 1, 0) + (1) * mn(p, 0, 3, 1, 1, 3, 0, 0)) + ((-3) * mn(p, 0, 3, 1, 1, 1, 2, 1) + ((9) * mn(p, 0, 3, 1, 0, 1, 3, 0) + (-18) * mn(p, 0, 2, 2, 3, 0, 1, 0)))))) + (((((45) * mn(p, 0, 2, 2, 2, 0, 2, 1) + (-6) * mn(p, 0, 2, 2, 1, 2, 1, 1)) + ((-18) * mn(p, 0, 2, 2, 1, 0, 3, 2) + (-54) * mn(p, 0, 2, 2, 1, 0, 3, 0))) + (((18) * mn(p, 0, 2, 2, 0, 2, 2, 0) + (27) * mn(p, 0, 2, 2, 0, 0, 4, 1)) + ((-9) * mn(p, 0, 1, 3, 3, 1, 0, 0) + (45) * mn(p, 0, 1, 3, 2, 1, 1, 1)))) + ((((-3) * mn(p, 0, 1, 3, 1, 3, 0, 1) + (-27) * mn(p, 0, 1, 3, 1, 1, 2, 2)) + ((-81) * mn(p, 0, 1, 3, 1, 1, 2, 0) + (9) * mn(p, 0, 1, 3, 0, 3, 1, 0))) + (((54) * mn(p, 0, 1, 3, 0, 1, 3, 1) + (9) * mn(p, 0, 0, 4, 2, 2, 0, 1)) + ((-9) * mn(p, 0, 0, 4, 1, 2, 1, 2) + ((-27) * mn(p, 0, 0, 4, 1, 2, 1, 0) + (27) * mn(p, 0, 0, 4, 0, 2, 2, 1)))))))));
}

#[verifier::rlimit(100)]
proof fn acb_prod10_c0(p: Pt)
    ensures
        (((((3) * mn(p, 2, 0, 0, 0, 1, 1, 0) + ((6) * mn(p, 1, 1, 0, 1, 0, 1, 0) + (1) * mn(p, 1, 1, 0, 0, 2, 0, 0))) + ((-3) * mn(p, 1, 1, 0, 0, 0, 2, 1) + ((6) * mn(p, 1, 0, 1, 1, 1, 0, 0) + (-6) * mn(p, 1, 0, 1, 0, 1, 1, 1)))) + (((1) * mn(p, 0, 2, 0, 1, 1, 0, 0) + ((3) * mn(p, 0, 1, 1, 2, 0, 0, 0) + (-6) * mn(p, 0, 1, 1, 1, 0, 1, 1))) + ((9) * mn(p, 0, 1, 1, 0, 0, 2, 0) + ((-3) * mn(p, 0, 0, 2, 1, 1, 0, 1) + (9) * mn(p, 0, 0, 2, 0, 1, 1, 0)))))) * (((((3) * mn(p, 2, 0, 0, 1, 1, 0, 0) + (3) * mn(p, 1, 1, 0, 2, 0, 0, 0)) + ((-3) * mn(p, 1, 1, 0, 0, 0, 2, 0) + ((-6) * mn(p, 1, 0, 1, 0, 1, 1, 0) + (1) * mn(p, 0, 2, 0, 0, 1, 1, 0)))) + (((-6) * mn(p, 0, 1, 1, 1, 0, 1, 0) + (1) * mn(p, 0, 1, 1, 0, 2, 0, 0)) + ((3) * mn(p, 0, 1, 1, 0, 0, 2, 1) + ((-3) * mn(p, 0, 0, 2, 1, 1, 0, 0) + (3) * mn(p, 0, 0, 2, 0, 1, 1, 1)))))) == (((((((9) * mn(p, 4, 0, 0, 1, 2, 1, 0) + (27) * mn(p, 3, 1, 0, 2, 1, 1, 0)) + ((3) * mn(p, 3, 1, 0, 1, 3, 0, 0) + (-9) * mn(p, 3, 1, 0, 1, 1, 2, 1))) + (((-9) * mn(p, 3, 1, 0, 0, 1, 3, 0) + (18) * mn(p, 3, 0, 1, 2, 2, 0, 0)) + ((-18) * mn(p, 3, 0, 1, 1, 2, 1, 1) + (-18) * mn(p, 3, 0, 1, 0, 2, 2, 0)))) + ((((18) * mn(p, 2, 2, 0, 3, 0, 1, 0) + (6) * mn(p, 2, 2, 0, 2, 2, 0, 0)) + ((-9) * mn(p, 2, 2, 0, 2, 0, 2, 1) + (-18) * mn(p, 2, 2, 0, 1, 0, 3, 0))) + (((9) * mn(p, 2, 2, 0, 0, 0, 4, 1) + (27) * mn(p, 2, 1, 1, 3, 1, 0, 0)) + ((-36) * mn(p, 2, 1, 1, 2, 1, 1, 1) + (-45) * mn(p, 2, 1, 1, 1, 1, 2, 0))))) + (((((-3) * mn(p, 2, 1, 1, 0, 3, 1, 0) + (45) * mn(p, 2, 1, 1, 0, 1, 3, 1)) + ((-9) * mn(p, 2, 0, 2, 2, 2, 0, 1) + (-18) * mn(p, 2, 0, 2, 1, 2, 1, 0))) + (((45) * mn(p, 2, 0, 2, 0, 2, 2, 1) + (3) * mn(p, 1, 3, 0, 3, 1, 0, 0)) + ((3) * mn(p, 1, 3, 0, 1, 1, 2, 0) + (1) * mn(p, 1, 3, 0, 0, 3, 1, 0)))) + ((((-3) * mn(p, 1, 3, 0, 0, 1, 3, 1) + (9) * mn(p, 1, 2, 1, 4, 0, 0, 0)) + ((-18) * mn(p, 1, 2, 1, 3, 0, 1, 1) + (-18) * mn(p, 1, 2, 1, 2, 0, 2, 0))) + (((54) * mn(p, 1, 2, 1, 1, 0, 3, 1) + (1) * mn(p, 1, 2, 1, 0, 4, 0, 0)) + ((-6) * mn(p, 1, 2, 1, 0, 2, 2, 1) + ((-9) * mn(p, 1, 2, 1, 0, 0, 4, 2) + (-27) * mn(p, 1, 2, 1, 0, 0, 4, 0))))))) + ((((((-9) * mn(p, 1, 1, 2, 3, 1, 0, 1) + (-45) * mn(p, 1, 1, 2, 2, 1, 1, 0)) + ((3) * mn(p, 1, 1, 2, 1, 3, 0, 0) + (126) * mn(p, 1, 1, 2, 1, 1, 2, 1))) + (((-3) * mn(p, 1, 1, 2, 0, 3, 1, 1) + (-27) * mn(p, 1, 1, 2, 0, 1, 3, 2)) + ((-81) * mn(p, 1, 1, 2, 0, 1, 3, 0) + (-18) * mn(p, 1, 0, 3, 2, 2, 0, 0)))) + ((((54) * mn(p, 1, 0, 3, 1, 2, 1, 1) + (-18) * mn(p, 1, 0, 3, 0, 2, 2, 2)) + ((-54) * mn(p, 1, 0, 3, 0, 2, 2, 0) + (1) * mn(p, 0, 4, 0, 1, 2, 1, 0))) + (((-3) * mn(p, 0, 3, 1, 2, 1, 1, 0) + (1) * mn(p, 0, 3, 1, 1, 3, 0, 0)) + ((-3) * mn(p, 0, 3, 1, 1, 1, 2, 1) + ((9) * mn(p, 0, 3, 1, 0, 1, 3, 0) + (-18) * mn(p, 0, 2, 2, 3, 0, 1, 0)))))) + (((((45) * mn(p, 0, 2, 2, 2, 0, 2, 1) + (-6) * mn(p, 0, 2, 2, 1, 2, 1, 1)) + ((-18) * mn(p, 0, 2, 2, 1, 0, 3, 2) + (-54) * mn(p, 0, 2, 2, 1, 0, 3, 0))) + (((18) * mn(p, 0, 2, 2, 0, 2, 2, 0) + (27) * mn(p, 0, 2, 2, 0, 0, 4, 1)) + ((-9) * mn(p, 0, 1, 3, 3, 1, 0, 0) + (45) * mn(p, 0, 1, 3, 2, 1, 1, 1)))) + ((((-3) * mn(p, 0, 1, 3, 1, 3, 0, 1) + (-27) * mn(p, 0, 1, 3, 1, 1, 2, 2)) + ((-81) * mn(p, 0, 1, 3, 1, 1, 2, 0) + (9) * mn(p, 0, 1, 3, 0, 3, 1, 0))) + (((54) * mn(p, 0, 1, 3, 0, 1, 3, 1) + (9) * mn(p, 0, 0, 4, 2, 2, 0, 1)) + ((-9) * mn(p, 0, 0, 4, 1, 2, 1, 2) + ((-27) * mn(p, 0, 0, 4, 1, 2, 1, 0) + (27) * mn(p, 0, 0, 4, 0, 2, 2, 1)))))))),
{
    let t0 = (3) * mn(p, 2, 0, 0, 0, 1, 1, 0);
    let t1 = (6) * mn(p, 1, 1, 0, 1, 0, 1, 0);
    let t2 = (1) * mn(p, 1, 1, 0, 0, 2, 0, 0);
    let t3 = (-3) * mn(p, 1, 1, 0, 0, 0, 2, 1);
    let t4 = (6) * mn(p, 1, 0, 1, 1, 1, 0, 0);
    let t5 = (-6) * mn(p, 1, 0, 1, 0, 1, 1, 1);
    let t6 = (1) * mn(p, 0, 2, 0, 1, 1, 0, 0);
    let t7 = (3) * mn(p, 0, 1, 1, 2, 0, 0, 0);
    let t8 = (-6) * mn(p, 0, 1, 1, 1, 0, 1, 1);
    let t9 = (9) * mn(p, 0, 1, 1, 0, 0, 2, 0);
    let t10 = (-3) * mn(p, 0, 0, 2, 1, 1, 0, 1);
    let t11 = (9) * mn(p, 0, 0, 2, 0, 1, 1, 0);
    let s0 = (3) * mn(p, 2, 0, 0, 1, 1, 0, 0);
    let s1 = (3) * mn(p, 1, 1, 0, 2, 0, 0, 0);
    let s2 = (-3) * mn(p, 1, 1, 0, 0, 0, 2, 0);
    let s3 = (-6) * mn(p, 1, 0, 1, 0, 1, 1, 0);
    let s4 = (1) * mn(p, 0, 2, 0, 0, 1, 1, 0);
    let s5 = (-6) * mn(p, 0, 1, 1, 1, 0, 1, 0);
    let s6 = (1) * mn(p, 0, 1, 1, 0, 2, 0, 0);
    let s7 = (3) * mn(p, 0, 1, 1, 0, 0, 2, 1);
    let s8 = (-3) * mn(p, 0, 0, 2, 1, 1, 0, 0);
    let s9 = (3) * mn(p, 0, 0, 2, 0, 1, 1, 1);
    let pp0 = t0;
    let pp1 = pp0 + t1;
    let pp2 = pp1 + t2;
    let pp3 = pp2 + t3;
    let pp4 = pp3 + t4;
    let pp5 = pp4 + t5;
    let pp6 = pp5 + t6;
    let pp7 = pp6 + t7;
    let pp8 = pp7 + t8;
    let pp9 = pp8 + t9;
    let pp10 = pp9 + t10;
    let pp11 = pp10 + t11;
    let qq0 = s0;
    let qq1 = qq0 + s1;
    let qq2 = qq1 + s2;
    let qq3 = qq2 + s3;
    let qq4 = qq3 + s4;
    let qq5 = qq4 + s5;
    let qq6 = qq5 + s6;
    let qq7 = qq6 + s7;
    let qq8 = qq7 + s8;
    let qq9 = qq8 + s9;
    let q = qq9;
    lemma_mul_is_distributive_add_other_way(q, pp0, t1);
    lemma_mul_is_distributive_add_other_way(q, pp1, t2);
    lemma_mul_is_distributive_add_other_way(q, pp2, t3);
    lemma_mul_is_distributive_add_other_way(q, pp3, t4);
    lemma_mul_is_distributive_add_other_way(q, pp4, t5);
    lemma_mul_is_distributive_add_other_way(q, pp5, t6);
    lemma_mul_is_distributive_add_other_way(q, pp6, t7);
    lemma_mul_is_distributive_add_other_way(q, pp7, t8);
    lemma_mul_is_distributive_add_other_way(q, pp8, t9);
    lemma_mul_is_distributive_add_other_way(q, pp9, t10);
    lemma_mul_is_distributive_add_other_way(q, pp10, t11);
    lemma_mul_is_distributive_add(t0, qq0, s1);
    lemma_mul_is_distributive_add(t0, qq1, s2);
    lemma_mul_is_distributive_add(t0, qq2, s3);
    lemma_mul_is_distributive_add(t0, qq3, s4);
    lemma_mul_is_distributive_add(t0, qq4, s5);
    lemma_mul_is_distributive_add(t0, qq5, s6);
    lemma_mul_is_distributive_add(t0, qq6, s7);
    lemma_mul_is_distributive_add(t0, qq7, s8);
    lemma_mul_is_distributive_add(t0, qq8, s9);
    lemma_mul_is_distributive_add(t1, qq0, s1);
    lemma_mul_is_distributive_add(t1, qq1, s2);
    lemma_mul_is_distributive_add(t1, qq2, s3);
    lemma_mul_is_distributive_add(t1, qq3, s4);
    lemma_mul_is_distributive_add(t1, qq4, s5);
    lemma_mul_is_distributive_add(t1, qq5, s6);
    lemma_mul_is_distributive_add(t1, qq6, s7);
    lemma_mul_is_distributive_add(t1, qq7, s8);
    lemma_mul_is_distributive_add(t1, qq8, s9);
    lemma_mul_is_distributive_add(t2, qq0, s1);
    lemma_mul_is_distributive_add(t2, qq1, s2);
    lemma_mul_is_distributive_add(t2, qq2, s3);
    lemma_mul_is_distributive_add(t2, qq3, s4);
    lemma_mul_is_distributive_add(t2, qq4, s5);
    lemma_mul_is_distributive_add(t2, qq5, s6);
    lemma_mul_is_distributive_add(t2, qq6, s7);
    lemma_mul_is_distributive_add(t2, qq7, s8);
    lemma_mul_is_distributive_add(t2, qq8, s9);
    lemma_mul_is_distributive_add(t3, qq0, s1);
    lemma_mul_is_distributive_add(t3, qq1, s2);
    lemma_mul_is_distributive_add(t3, qq2, s3);
    lemma_mul_is_distributive_add(t3, qq3, s4);
    lemma_mul_is_distributive_add(t3, qq4, s5);
    lemma_mul_is_distributive_add(t3, qq5, s6);
    lemma_mul_is_distributive_add(t3, qq6, s7);
    lemma_mul_is_distributive_add(t3, qq7, s8);
    lemma_mul_is_distributive_add(t3, qq8, s9);
    lemma_mul_is_distributive_add(t4, qq0, s1);
    lemma_mul_is_distributive_add(t4, qq1, s2);
    lemma_mul_is_distributive_add(t4, qq2, s3);
    lemma_mul_is_distributive_add(t4, qq3, s4);
    lemma_mul_is_distributive_add(t4, qq4, s5);
    lemma_mul_is_distributive_add(t4, qq5, s6);
    lemma_mul_is_distributive_add(t4, qq6, s7);
    lemma_mul_is_distributive_add(t4, qq7, s8);
    lemma_mul_is_distributive_add(t4, qq8, s9);
    lemma_mul_is_distributive_add(t5, qq0, s1);
    lemma_mul_is_distributive_add(t5, qq1, s2);
    lemma_mul_is_distributive_add(t5, qq2, s3);
    lemma_mul_is_distributive_add(t5, qq3, s4);
    lemma_mul_is_distributive_add(t5, qq4, s5);
    lemma_mul_is_distributive_add(t5, qq5, s6);
    lemma_mul_is_distributive_add(t5, qq6, s7);
    lemma_mul_is_distributive_add(t5, qq7, s8);
    lemma_mul_is_distributive_add(t5, qq8, s9);
    lemma_mul_is_distributive_add(t6, qq0, s1);
    lemma_mul_is_distributive_add(t6, qq1, s2);
    lemma_mul_is_distributive_add(t6, qq2, s3);
    lemma_mul_is_distributive_add(t6, qq3, s4);
    lemma_mul_is_distributive_add(t6, qq4, s5);
    lemma_mul_is_distributive_add(t6, qq5, s6);
    lemma_mul_is_distributive_add(t6, qq6, s7);
    lemma_mul_is_distributive_add(t6, qq7, s8);
    lemma_mul_is_distributive_add(t6, qq8, s9);
    lemma_mul_is_distributive_add(t7, qq0, s1);
    lemma_mul_is_distributive_add(t7, qq1, s2);
    lemma_mul_is_distributive_add(t7, qq2, s3);
    lemma_mul_is_distributive_add(t7, qq3, s4);
    lemma_mul_is_distributive_add(t7, qq4, s5);
    lemma_mul_is_distributive_add(t7, qq5, s6);
    lemma_mul_is_distributive_add(t7, qq6, s7);
    lemma_mul_is_distributive_add(t7, qq7, s8);
    lemma_mul_is_distributive_add(t7, qq8, s9);
    lemma_mul_is_distributive_add(t8, qq0, s1);
    lemma_mul_is_distributive_add(t8, qq1, s2);
    lemma_mul_is_distributive_add(t8, qq2, s3);
    lemma_mul_is_distributive_add(t8, qq3, s4);
    lemma_mul_is_distributive_add(t8, qq4, s5);
    lemma_mul_is_distributive_add(t8, qq5, s6);
    lemma_mul_is_distributive_add(t8, qq6, s7);
    lemma_mul_is_distributive_add(t8, qq7, s8);
    lemma_mul_is_distributive_add(t8, qq8, s9);
    lemma_mul_is_distributive_add(t9, qq0, s1);
    lemma_mul_is_distributive_add(t9, qq1, s2);
    lemma_mul_is_distributive_add(t9, qq2, s3);
    lemma_mul_is_distributive_add(t9, qq3, s4);
    lemma_mul_is_distributive_add(t9, qq4, s5);
    lemma_mul_is_distributive_add(t9, qq5, s6);
    lemma_mul_is_distributive_add(t9, qq6, s7);
    lemma_mul_is_distributive_add(t9, qq7, s8);
    lemma_mul_is_distributive_add(t9, qq8, s9);
    lemma_mul_is_distributive_add(t10, qq0, s1);
    lemma_mul_is_distributive_add(t10, qq1, s2);
    lemma_mul_is_distributive_add(t10, qq2, s3);
    lemma_mul_is_distributive_add(t10, qq3, s4);
    lemma_mul_is_distributive_add(t10, qq4, s5);
    lemma_mul_is_distributive_add(t10, qq5, s6);
    lemma_mul_is_distributive_add(t10, qq6, s7);
    lemma_mul_is_distributive_add(t10, qq7, s8);
    lemma_mul_is_distributive_add(t10, qq8, s9);
    lemma_mul_is_distributive_add(t11, qq0, s1);
    lemma_mul_is_distributive_add(t11, qq1, s2);
    lemma_mul_is_distributive_add(t11, qq2, s3);
    lemma_mul_is_distributive_add(t11, qq3, s4);
    lemma_mul_is_distributive_add(t11, qq4, s5);
    lemma_mul_is_distributive_add(t11, qq5, s6);
    lemma_mul_is_distributive_add(t11, qq6, s7);
    lemma_mul_is_distributive_add(t11, qq7, s8);
    lemma_mul_is_distributive_add(t11, qq8, s9);
    lemma_tm(p, 3, 2, 0, 0, 0, 1, 1, 0, 3, 2, 0, 0, 1, 1, 0, 0);
    assert(t0 * s0 == (9) * mn(p, 4, 0, 0, 1, 2, 1, 0));
    lemma_tm(p, 3, 2, 0, 0, 0, 1, 1, 0, 3, 1, 1, 0, 2, 0, 0, 0);
    assert(t0 * s1 == (9) * mn(p, 3, 1, 0, 2, 1, 1, 0));
    lemma_tm(p, 3, 2, 0, 0, 0, 1, 1, 0, -3, 1, 1, 0, 0, 0, 2, 0);
    assert(t0 * s2 == (-9) * mn(p, 3, 1, 0, 0, 1, 3, 0));
    lemma_tm(p, 3, 2, 0, 0, 0, 1, 1, 0, -6, 1, 0, 1, 0, 1, 1, 0);
    assert(t0 * s3 == (-18) * mn(p, 3, 0, 1, 0, 2, 2, 0));
    lemma_tm(p, 3, 2, 0, 0, 0, 1, 1, 0, 1, 0, 2, 0, 0, 1, 1, 0);
    assert(t0 * s4 == (3) * mn(p, 2, 2, 0, 0, 2, 2, 0));
    lemma_tm(p, 3, 2, 0, 0, 0, 1, 1, 0, -6, 0, 1, 1, 1, 0, 1, 0);
    assert(t0 * s5 == (-18) * mn(p, 2, 1, 1, 1, 1, 2, 0));
    lemma_tm(p, 3, 2, 0, 0, 0, 1, 1, 0, 1, 0, 1, 1, 0, 2, 0, 0);
    assert(t0 * s6 == (3) * mn(p, 2, 1, 1, 0, 3, 1, 0));
    lemma_tm(p, 3, 2, 0, 0, 0, 1, 1, 0, 3, 0, 1, 1, 0, 0, 2, 1);
    assert(t0 * s7 == (9) * mn(p, 2, 1, 1, 0, 1, 3, 1));
    lemma_tm(p, 3, 2, 0, 0, 0, 1, 1, 0, -3, 0, 0, 2, 1, 1, 0, 0);
    assert(t0 * s8 == (-9) * mn(p, 2, 0, 2, 1, 2, 1, 0));
    lemma_tm(p, 3, 2, 0, 0, 0, 1, 1, 0, 3, 0, 0, 2, 0, 1, 1, 1);
    assert(t0 * s9 == (9) * mn(p, 2, 0, 2, 0, 2, 2, 1));
    assert(t0 * q == (9) * mn(p, 4, 0, 0, 1, 2, 1, 0) + (9) * mn(p, 3, 1, 0, 2, 1, 1, 0) + (-9) * mn(p, 3, 1, 0, 0, 1, 3, 0) + (-18) * mn(p, 3, 0, 1, 0, 2, 2, 0) + (3) * mn(p, 2, 2, 0, 0, 2, 2, 0) + (-18) * mn(p, 2, 1, 1, 1, 1, 2, 0) + (3) * mn(p, 2, 1, 1, 0, 3, 1, 0) + (9) * mn(p, 2, 1, 1, 0, 1, 3, 1) + (-9) * mn(p, 2, 0, 2, 1, 2, 1, 0) + (9) * mn(p, 2, 0, 2, 0, 2, 2, 1));
    lemma_tm(p, 6, 1, 1, 0, 1, 0, 1, 0, 3, 2, 0, 0, 1, 1, 0, 0);
    assert(t1 * s0 == (18) * mn(p, 3, 1, 0, 2, 1, 1, 0));
    lemma_tm(p, 6, 1, 1, 0, 1, 0, 1, 0, 3, 1, 1, 0, 2, 0, 0, 0);
    assert(t1 * s1 == (18) * mn(p, 2, 2, 0, 3, 0, 1, 0));
    lemma_tm(p, 6, 1, 1, 0, 1, 0, 1, 0, -3, 1, 1, 0, 0, 0, 2, 0);
    assert(t1 * s2 == (-18) * mn(p, 2, 2, 0, 1, 0, 3, 0));
    lemma_tm(p, 6, 1, 1, 0, 1, 0, 1, 0, -6, 1, 0, 1, 0, 1, 1, 0);
    assert(t1 * s3 == (-36) * mn(p, 2, 1, 1, 1, 1, 2, 0));
    lemma_tm(p, 6, 1, 1, 0, 1, 0, 1, 0, 1, 0, 2, 0, 0, 1, 1, 0);
    assert(t1 * s4 == (6) * mn(p, 1, 3, 0, 1, 1, 2, 0));
    lemma_tm(p, 6, 1, 1, 0, 1, 0, 1, 0, -6, 0, 1, 1, 1, 0, 1, 0);
    assert(t1 * s5 == (-36) * mn(p, 1, 2, 1, 2, 0, 2, 0));
    lemma_tm(p, 6, 1, 1, 0, 1, 0, 1, 0, 1, 0, 1, 1, 0, 2, 0, 0);
    assert(t1 * s6 == (6) * mn(p, 1, 2, 1, 1, 2, 1, 0));
    lemma_tm(p, 6, 1, 1, 0, 1, 0, 1, 0, 3, 0, 1, 1, 0, 0, 2, 1);
    assert(t1 * s7 == (18) * mn(p, 1, 2, 1, 1, 0, 3, 1));
    lemma_tm(p, 6, 1, 1, 0, 1, 0, 1, 0, -3, 0, 0, 2, 1, 1, 0, 0);
    assert(t1 * s8 == (-18) * mn(p, 1, 1, 2, 2, 1, 1, 0));
    lemma_tm(p, 6, 1, 1, 0, 1, 0, 1, 0, 3, 0, 0, 2, 0, 1, 1, 1);
    assert(t1 * s9 == (18) * mn(p, 1, 1, 2, 1, 1, 2, 1));
    assert(t1 * q == (18) * mn(p, 3, 1, 0, 2, 1, 1, 0) + (18) * mn(p, 2, 2, 0, 3, 0, 1, 0) + (-18) * mn(p, 2, 2, 0, 1, 0, 3, 0) + (-36) * mn(p, 2, 1, 1, 1, 1, 2, 0) + (6) * mn(p, 1, 3, 0, 1, 1, 2, 0) + (-36) * mn(p, 1, 2, 1, 2, 0, 2, 0) + (6) * mn(p, 1, 2, 1, 1, 2, 1, 0) + (18) * mn(p, 1, 2, 1, 1, 0, 3, 1) + (-18) * mn(p, 1, 1, 2, 2, 1, 1, 0) + (18) * mn(p, 1, 1, 2, 1, 1, 2, 1));
    lemma_tm(p, 1, 1, 1, 0, 0, 2, 0, 0, 3, 2, 0, 0, 1, 1, 0, 0);
    assert(t2 * s0 == (3) * mn(p, 3, 1, 0, 1, 3, 0, 0));
    lemma_tm(p, 1, 1, 1, 0, 0, 2, 0, 0, 3, 1, 1, 0, 2, 0, 0, 0);
    assert(t2 * s1 == (3) * mn(p, 2, 2, 0, 2, 2, 0, 0));
    lemma_tm(p, 1, 1, 1, 0, 0, 2, 0, 0, -3, 1, 1, 0, 0, 0, 2, 0);
    assert(t2 * s2 == (-3) * mn(p, 2, 2, 0, 0, 2, 2, 0));
    lemma_tm(p, 1, 1, 1, 0, 0, 2, 0, 0, -6, 1, 0, 1, 0, 1, 1, 0);
    assert(t2 * s3 == (-6) * mn(p, 2, 1, 1, 0, 3, 1, 0));
    lemma_tm(p, 1, 1, 1, 0, 0, 2, 0, 0, 1, 0, 2, 0, 0, 1, 1, 0);
    assert(t2 * s4 == (1) * mn(p, 1, 3, 0, 0, 3, 1, 0));
    lemma_tm(p, 1, 1, 1, 0, 0, 2, 0, 0, -6, 0, 1, 1, 1, 0, 1, 0);
    assert(t2 * s5 == (-6) * mn(p, 1, 2, 1, 1, 2, 1, 0));
    lemma_tm(p, 1, 1, 1, 0, 0, 2, 0, 0, 1, 0, 1, 1, 0, 2, 0, 0);
    assert(t2 * s6 == (1) * mn(p, 1, 2, 1, 0, 4, 0, 0));
    lemma_tm(p, 1, 1, 1, 0, 0, 2, 0, 0, 3, 0, 1, 1, 0, 0, 2, 1);
    assert(t2 * s7 == (3) * mn(p, 1, 2, 1, 0, 2, 2, 1));
    lemma_tm(p, 1, 1, 1, 0, 0, 2, 0, 0, -3, 0, 0, 2, 1, 1, 0, 0);
    assert(t2 * s8 == (-3) * mn(p, 1, 1, 2, 1, 3, 0, 0));
    lemma_tm(p, 1, 1, 1, 0, 0, 2, 0, 0, 3, 0, 0, 2, 0, 1, 1, 1);
    assert(t2 * s9 == (3) * mn(p, 1, 1, 2, 0, 3, 1, 1));
    assert(t2 * q == (3) * mn(p, 3, 1, 0, 1, 3, 0, 0) + (3) * mn(p, 2, 2, 0, 2, 2, 0, 0) + (-3) * mn(p, 2, 2, 0, 0, 2, 2, 0) + (-6) * mn(p, 2, 1, 1, 0, 3, 1, 0) + (1) * mn(p, 1, 3, 0, 0, 3, 1, 0) + (-6) * mn(p, 1, 2, 1, 1, 2, 1, 0) + (1) * mn(p, 1, 2, 1, 0, 4, 0, 0) + (3) * mn(p, 1, 2, 1, 0, 2, 2, 1) + (-3) * mn(p, 1, 1, 2, 1, 3, 0, 0) + (3) * mn(p, 1, 1, 2, 0, 3, 1, 1));
    lemma_tm(p, -3, 1, 1, 0, 0, 0, 2, 1, 3, 2, 0, 0, 1, 1, 0, 0);
    assert(t3 * s0 == (-9) * mn(p, 3, 1, 0, 1, 1, 2, 1));
    lemma_tm(p, -3, 1, 1, 0, 0, 0, 2, 1, 3, 1, 1, 0, 2, 0, 0, 0);
    assert(t3 * s1 == (-9) * mn(p, 2, 2, 0, 2, 0, 2, 1));
    lemma_tm(p, -3, 1, 1, 0, 0, 0, 2, 1, -3, 1, 1, 0, 0, 0, 2, 0);
    assert(t3 * s2 == (9) * mn(p, 2, 2, 0, 0, 0, 4, 1));
    lemma_tm(p, -3, 1, 1, 0, 0, 0, 2, 1, -6, 1, 0, 1, 0, 1, 1, 0);
    assert(t3 * s3 == (18) * mn(p, 2, 1, 1, 0, 1, 3, 1));
    lemma_tm(p, -3, 1, 1, 0, 0, 0, 2, 1, 1, 0, 2, 0, 0, 1, 1, 0);
    assert(t3 * s4 == (-3) * mn(p, 1, 3, 0, 0, 1, 3, 1));
    lemma_tm(p, -3, 1, 1, 0, 0, 0, 2, 1, -6, 0, 1, 1, 1, 0, 1, 0);
    assert(t3 * s5 == (18) * mn(p, 1, 2, 1, 1, 0, 3, 1));
    lemma_tm(p, -3, 1, 1, 0, 0, 0, 2, 1, 1, 0, 1, 1, 0, 2, 0, 0);
    assert(t3 * s6 == (-3) * mn(p, 1, 2, 1, 0, 2, 2, 1));
    lemma_tm(p, -3, 1, 1, 0, 0, 0, 2, 1, 3, 0, 1, 1, 0, 0, 2, 1);
    assert(t3 * s7 == (-9) * mn(p, 1, 2, 1, 0, 0, 4, 2));
    lemma_tm(p, -3, 1, 1, 0, 0, 0, 2, 1, -3, 0, 0, 2, 1, 1, 0, 0);
    assert(t3 * s8 == (9) * mn(p, 1, 1, 2, 1, 1, 2, 1));
    lemma_tm(p, -3, 1, 1, 0, 0, 0, 2, 1, 3, 0, 0, 2, 0, 1, 1, 1);
    assert(t3 * s9 == (-9) * mn(p, 1, 1, 2, 0, 1, 3, 2));
    assert(t3 * q == (-9) * mn(p, 3, 1, 0, 1, 1, 2, 1) + (-9) * mn(p, 2, 2, 0, 2, 0, 2, 1) + (9) * mn(p, 2, 2, 0, 0, 0, 4, 1) + (18) * mn(p, 2, 1, 1, 0, 1, 3, 1) + (-3) * mn(p, 1, 3, 0, 0, 1, 3, 1) + (18) * mn(p, 1, 2, 1, 1, 0, 3, 1) + (-3) * mn(p, 1, 2, 1, 0, 2, 2, 1) + (-9) * mn(p, 1, 2, 1, 0, 0, 4, 2) + (9) * mn(p, 1, 1, 2, 1, 1, 2, 1) + (-9) * mn(p, 1, 1, 2, 0, 1, 3, 2));
    lemma_tm(p, 6, 1, 0, 1, 1, 1, 0, 0, 3, 2, 0, 0, 1, 1, 0, 0);
    assert(t4 * s0 == (18) * mn(p, 3, 0, 1, 2, 2, 0, 0));
    lemma_tm(p, 6, 1, 0, 1, 1, 1, 0, 0, 3, 1, 1, 0, 2, 0, 0, 0);
    assert(t4 * s1 == (18) * mn(p, 2, 1, 1, 3, 1, 0, 0));
    lemma_tm(p, 6, 1, 0, 1, 1, 1, 0, 0, -3, 1, 1, 0, 0, 0, 2, 0);
    assert(t4 * s2 == (-18) * mn(p, 2, 1, 1, 1, 1, 2, 0));
    lemma_tm(p, 6, 1, 0, 1, 1, 1, 0, 0, -6, 1, 0, 1, 0, 1, 1, 0);
    assert(t4 * s3 == (-36) * mn(p, 2, 0, 2, 1, 2, 1, 0));
    lemma_tm(p, 6, 1, 0, 1, 1, 1, 0, 0, 1, 0, 2, 0, 0, 1, 1, 0);
    assert(t4 * s4 == (6) * mn(p, 1, 2, 1, 1, 2, 1, 0));
    lemma_tm(p, 6, 1, 0, 1, 1, 1, 0, 0, -6, 0, 1, 1, 1, 0, 1, 0);
    assert(t4 * s5 == (-36) * mn(p, 1, 1, 2, 2, 1, 1, 0));
    lemma_tm(p, 6, 1, 0, 1, 1, 1, 0, 0, 1, 0, 1, 1, 0, 2, 0, 0);
    assert(t4 * s6 == (6) * mn(p, 1, 1, 2, 1, 3, 0, 0));
    lemma_tm(p, 6, 1, 0, 1, 1, 1, 0, 0, 3, 0, 1, 1, 0, 0, 2, 1);
    assert(t4 * s7 == (18) * mn(p, 1, 1, 2, 1, 1, 2, 1));
    lemma_tm(p, 6, 1, 0, 1, 1, 1, 0, 0, -3, 0, 0, 2, 1, 1, 0, 0);
    assert(t4 * s8 == (-18) * mn(p, 1, 0, 3, 2, 2, 0, 0));
    lemma_tm(p, 6, 1, 0, 1, 1, 1, 0, 0, 3, 0, 0, 2, 0, 1, 1, 1);
    assert(t4 * s9 == (18) * mn(p, 1, 0, 3, 1, 2, 1, 1));
    assert(t4 * q == (18) * mn(p, 3, 0, 1, 2, 2, 0, 0) + (18) * mn(p, 2, 1, 1, 3, 1, 0, 0) + (-18) * mn(p, 2, 1, 1, 1, 1, 2, 0) + (-36) * mn(p, 2, 0, 2, 1, 2, 1, 0) + (6) * mn(p, 1, 2, 1, 1, 2, 1, 0) + (-36) * mn(p, 1, 1, 2, 2, 1, 1, 0) + (6) * mn(p, 1, 1, 2, 1, 3, 0, 0) + (18) * mn(p, 1, 1, 2, 1, 1, 2, 1) + (-18) * mn(p, 1, 0, 3, 2, 2, 0, 0) + (18) * mn(p, 1, 0, 3, 1, 2, 1, 1));
    lemma_tm(p, -6, 1, 0, 1, 0, 1, 1, 1, 3, 2, 0, 0, 1, 1, 0, 0);
    assert(t5 * s0 == (-18) * mn(p, 3, 0, 1, 1, 2, 1, 1));
    lemma_tm(p, -6, 1, 0, 1, 0, 1, 1, 1, 3, 1, 1, 0, 2, 0, 0, 0);
    assert(t5 * s1 == (-18) * mn(p, 2, 1, 1, 2, 1, 1, 1));
    lemma_tm(p, -6, 1, 0, 1, 0, 1, 1, 1, -3, 1, 1, 0, 0, 0, 2, 0);
    assert(t5 * s2 == (18) * mn(p, 2, 1, 1, 0, 1, 3, 1));
    lemma_tm(p, -6, 1, 0, 1, 0, 1, 1, 1, -6, 1, 0, 1, 0, 1, 1, 0);
    assert(t5 * s3 == (36) * mn(p, 2, 0, 2, 0, 2, 2, 1));
    lemma_tm(p, -6, 1, 0, 1, 0, 1, 1, 1, 1, 0, 2, 0, 0, 1, 1, 0);
    assert(t5 * s4 == (-6) * mn(p, 1, 2, 1, 0, 2, 2, 1));
    lemma_tm(p, -6, 1, 0, 1, 0, 1, 1, 1, -6, 0, 1, 1, 1, 0, 1, 0);
    assert(t5 * s5 == (36) * mn(p, 1, 1, 2, 1, 1, 2, 1));
    lemma_tm(p, -6, 1, 0, 1, 0, 1, 1, 1, 1, 0, 1, 1, 0, 2, 0, 0);
    assert(t5 * s6 == (-6) * mn(p, 1, 1, 2, 0, 3, 1, 1));
    lemma_tm(p, -6, 1, 0, 1, 0, 1, 1, 1, 3, 0, 1, 1, 0, 0, 2, 1);
    assert(t5 * s7 == (-18) * mn(p, 1, 1, 2, 0, 1, 3, 2));
    lemma_tm(p, -6, 1, 0, 1, 0, 1, 1, 1, -3, 0, 0, 2, 1, 1, 0, 0);
    assert(t5 * s8 == (18) * mn(p, 1, 0, 3, 1, 2, 1, 1));
    lemma_tm(p, -6, 1, 0, 1, 0, 1, 1, 1, 3, 0, 0, 2, 0, 1, 1, 1);
    assert(t5 * s9 == (-18) * mn(p, 1, 0, 3, 0, 2, 2, 2));
    assert(t5 * q == (-18) * mn(p, 3, 0, 1, 1, 2, 1, 1) + (-18) * mn(p, 2, 1, 1, 2, 1, 1, 1) + (18) * mn(p, 2, 1, 1, 0, 1, 3, 1) + (36) * mn(p, 2, 0, 2, 0, 2, 2, 1) + (-6) * mn(p, 1, 2, 1, 0, 2, 2, 1) + (36) * mn(p, 1, 1, 2, 1, 1, 2, 1) + (-6) * mn(p, 1, 1, 2, 0, 3, 1, 1) + (-18) * mn(p, 1, 1, 2, 0, 1, 3, 2) + (18) * mn(p, 1, 0, 3, 1, 2, 1, 1) + (-18) * mn(p, 1, 0, 3, 0, 2, 2, 2));
    lemma_tm(p, 1, 0, 2, 0, 1, 1, 0, 0, 3, 2, 0, 0, 1, 1, 0, 0);
    assert(t6 * s0 == (3) * mn(p, 2, 2, 0, 2, 2, 0, 0));
    lemma_tm(p, 1, 0, 2, 0, 1, 1, 0, 0, 3, 1, 1, 0, 2, 0, 0, 0);
    assert(t6 * s1 == (3) * mn(p, 1, 3, 0, 3, 1, 0, 0));
    lemma_tm(p, 1, 0, 2, 0, 1, 1, 0, 0, -3, 1, 1, 0, 0, 0, 2, 0);
    assert(t6 * s2 == (-3) * mn(p, 1, 3, 0, 1, 1, 2, 0));
    lemma_tm(p, 1, 0, 2, 0, 1, 1, 0, 0, -6, 1, 0, 1, 0, 1, 1, 0);
    assert(t6 * s3 == (-6) * mn(p, 1, 2, 1, 1, 2, 1, 0));
    lemma_tm(p, 1, 0, 2, 0, 1, 1, 0, 0, 1, 0, 2, 0, 0, 1, 1, 0);
    assert(t6 * s4 == (1) * mn(p, 0, 4, 0, 1, 2, 1, 0));
    lemma_tm(p, 1, 0, 2, 0, 1, 1, 0, 0, -6, 0, 1, 1, 1, 0, 1, 0);
    assert(t6 * s5 == (-6) * mn(p, 0, 3, 1, 2, 1, 1, 0));
    lemma_tm(p, 1, 0, 2, 0, 1, 1, 0, 0, 1, 0, 1, 1, 0, 2, 0, 0);
    assert(t6 * s6 == (1) * mn(p, 0, 3, 1, 1, 3, 0, 0));
    lemma_tm(p, 1, 0, 2, 0, 1, 1, 0, 0, 3, 0, 1, 1, 0, 0, 2, 1);
    assert(t6 * s7 == (3) * mn(p, 0, 3, 1, 1, 1, 2, 1));
    lemma_tm(p, 1, 0, 2, 0, 1, 1, 0, 0, -3, 0, 0, 2, 1, 1, 0, 0);
    assert(t6 * s8 == (-3) * mn(p, 0, 2, 2, 2, 2, 0, 0));
    lemma_tm(p, 1, 0, 2, 0, 1, 1, 0, 0, 3, 0, 0, 2, 0, 1, 1, 1);
    assert(t6 * s9 == (3) * mn(p, 0, 2, 2, 1, 2, 1, 1));
    assert(t6 * q == (3) * mn(p, 2, 2, 0, 2, 2, 0, 0) + (3) * mn(p, 1, 3, 0, 3, 1, 0, 0) + (-3) * mn(p, 1, 3, 0, 1, 1, 2, 0) + (-6) * mn(p, 1, 2, 1, 1, 2, 1, 0) + (1) * mn(p, 0, 4, 0, 1, 2, 1, 0) + (-6) * mn(p, 0, 3, 1, 2, 1, 1, 0) + (1) * mn(p, 0, 3, 1, 1, 3, 0, 0) + (3) * mn(p, 0, 3, 1, 1, 1, 2, 1) + (-3) * mn(p, 0, 2, 2, 2, 2, 0, 0) + (3) * mn(p, 0, 2, 2, 1, 2, 1, 1));
    lemma_tm(p, 3, 0, 1, 1, 2, 0, 0, 0, 3, 2, 0, 0, 1, 1, 0, 0);
    assert(t7 * s0 == (9) * mn(p, 2, 1, 1, 3, 1, 0, 0));
    lemma_tm(p, 3, 0, 1, 1, 2, 0, 0, 0, 3, 1, 1, 0, 2, 0, 0, 0);
    assert(t7 * s1 == (9) * mn(p, 1, 2, 1, 4, 0, 0, 0));
    lemma_tm(p, 3, 0, 1, 1, 2, 0, 0, 0, -3, 1, 1, 0, 0, 0, 2, 0);
    assert(t7 * s2 == (-9) * mn(p, 1, 2, 1, 2, 0, 2, 0));
    lemma_tm(p, 3, 0, 1, 1, 2, 0, 0, 0, -6, 1, 0, 1, 0, 1, 1, 0);
    assert(t7 * s3 == (-18) * mn(p, 1, 1, 2, 2, 1, 1, 0));
    lemma_tm(p, 3, 0, 1, 1, 2, 0, 0, 0, 1, 0, 2, 0, 0, 1, 1, 0);
    assert(t7 * s4 == (3) * mn(p, 0, 3, 1, 2, 1, 1, 0));
    lemma_tm(p, 3, 0, 1, 1, 2, 0, 0, 0, -6, 0, 1, 1, 1, 0, 1, 0);
    assert(t7 * s5 == (-18) * mn(p, 0, 2, 2, 3, 0, 1, 0));
    lemma_tm(p, 3, 0, 1, 1, 2, 0, 0, 0, 1, 0, 1, 1, 0, 2, 0, 0);
    assert(t7 * s6 == (3) * mn(p, 0, 2, 2, 2, 2, 0, 0));
    lemma_tm(p, 3, 0, 1, 1, 2, 0, 0, 0, 3, 0, 1, 1, 0, 0, 2, 1);
    assert(t7 * s7 == (9) * mn(p, 0, 2, 2, 2, 0, 2, 1));
    lemma_tm(p, 3, 0, 1, 1, 2, 0, 0, 0, -3, 0, 0, 2, 1, 1, 0, 0);
    assert(t7 * s8 == (-9) * mn(p, 0, 1, 3, 3, 1, 0, 0));
    lemma_tm(p, 3, 0, 1, 1, 2, 0, 0, 0, 3, 0, 0, 2, 0, 1, 1, 1);
    assert(t7 * s9 == (9) * mn(p, 0, 1, 3, 2, 1, 1, 1));
    assert(t7 * q == (9) * mn(p, 2, 1, 1, 3, 1, 0, 0) + (9) * mn(p, 1, 2, 1, 4, 0, 0, 0) + (-9) * mn(p, 1, 2, 1, 2, 0, 2, 0) + (-18) * mn(p, 1, 1, 2, 2, 1, 1, 0) + (3) * mn(p, 0, 3, 1, 2, 1, 1, 0) + (-18) * mn(p, 0, 2, 2, 3, 0, 1, 0) + (3) * mn(p, 0, 2, 2, 2, 2, 0, 0) + (9) * mn(p, 0, 2, 2, 2, 0, 2, 1) + (-9) * mn(p, 0, 1, 3, 3, 1, 0, 0) + (9) * mn(p, 0, 1, 3, 2, 1, 1, 1));
    lemma_tm(p, -6, 0, 1, 1, 1, 0, 1, 1, 3, 2, 0, 0, 1, 1, 0, 0);
    assert(t8 * s0 == (-18) * mn(p, 2, 1, 1, 2, 1, 1, 1));
    lemma_tm(p, -6, 0, 1, 1, 1, 0, 1, 1, 3, 1, 1, 0, 2, 0, 0, 0);
    assert(t8 * s1 == (-18) * mn(p, 1, 2, 1, 3, 0, 1, 1));
    lemma_tm(p, -6, 0, 1, 1, 1, 0, 1, 1, -3, 1, 1, 0, 0, 0, 2, 0);
    assert(t8 * s2 == (18) * mn(p, 1, 2, 1, 1, 0, 3, 1));
    lemma_tm(p, -6, 0, 1, 1, 1, 0, 1, 1, -6, 1, 0, 1, 0, 1, 1, 0);
    assert(t8 * s3 == (36) * mn(p, 1, 1, 2, 1, 1, 2, 1));
    lemma_tm(p, -6, 0, 1, 1, 1, 0, 1, 1, 1, 0, 2, 0, 0, 1, 1, 0);
    assert(t8 * s4 == (-6) * mn(p, 0, 3, 1, 1, 1, 2, 1));
    lemma_tm(p, -6, 0, 1, 1, 1, 0, 1, 1, -6, 0, 1, 1, 1, 0, 1, 0);
    assert(t8 * s5 == (36) * mn(p, 0, 2, 2, 2, 0, 2, 1));
    lemma_tm(p, -6, 0, 1, 1, 1, 0, 1, 1, 1, 0, 1, 1, 0, 2, 0, 0);
    assert(t8 * s6 == (-6) * mn(p, 0, 2, 2, 1, 2, 1, 1));
    lemma_tm(p, -6, 0, 1, 1, 1, 0, 1, 1, 3, 0, 1, 1, 0, 0, 2, 1);
    assert(t8 * s7 == (-18) * mn(p, 0, 2, 2, 1, 0, 3, 2));
    lemma_tm(p, -6, 0, 1, 1, 1, 0, 1, 1, -3, 0, 0, 2, 1, 1, 0, 0);
    assert(t8 * s8 == (18) * mn(p, 0, 1, 3, 2, 1, 1, 1));
    lemma_tm(p, -6, 0, 1, 1, 1, 0, 1, 1, 3, 0, 0, 2, 0, 1, 1, 1);
    assert(t8 * s9 == (-18) * mn(p, 0, 1, 3, 1, 1, 2, 2));
    assert(t8 * q == (-18) * mn(p, 2, 1, 1, 2, 1, 1, 1) + (-18) * mn(p, 1, 2, 1, 3, 0, 1, 1) + (18) * mn(p, 1, 2, 1, 1, 0, 3, 1) + (36) * mn(p, 1, 1, 2, 1, 1, 2, 1) + (-6) * mn(p, 0, 3, 1, 1, 1, 2, 1) + (36) * mn(p, 0, 2, 2, 2, 0, 2, 1) + (-6) * mn(p, 0, 2, 2, 1, 2, 1, 1) + (-18) * mn(p, 0, 2, 2, 1, 0, 3, 2) + (18) * mn(p, 0, 1, 3, 2, 1, 1, 1) + (-18) * mn(p, 0, 1, 3, 1, 1, 2, 2));
    lemma_tm(p, 9, 0, 1, 1, 0, 0, 2, 0, 3, 2, 0, 0, 1, 1, 0, 0);
    assert(t9 * s0 == (27) * mn(p, 2, 1, 1, 1, 1, 2, 0));
    lemma_tm(p, 9, 0, 1, 1, 0, 0, 2, 0, 3, 1, 1, 0, 2, 0, 0, 0);
    assert(t9 * s1 == (27) * mn(p, 1, 2, 1, 2, 0, 2, 0));
    lemma_tm(p, 9, 0, 1, 1, 0, 0, 2, 0, -3, 1, 1, 0, 0, 0, 2, 0);
    assert(t9 * s2 == (-27) * mn(p, 1, 2, 1, 0, 0, 4, 0));
    lemma_tm(p, 9, 0, 1, 1, 0, 0, 2, 0, -6, 1, 0, 1, 0, 1, 1, 0);
    assert(t9 * s3 == (-54) * mn(p, 1, 1, 2, 0, 1, 3, 0));
    lemma_tm(p, 9, 0, 1, 1, 0, 0, 2, 0, 1, 0, 2, 0, 0, 1, 1, 0);
    assert(t9 * s4 == (9) * mn(p, 0, 3, 1, 0, 1, 3, 0));
    lemma_tm(p, 9, 0, 1, 1, 0, 0, 2, 0, -6, 0, 1, 1, 1, 0, 1, 0);
    assert(t9 * s5 == (-54) * mn(p, 0, 2, 2, 1, 0, 3, 0));
    lemma_tm(p, 9, 0, 1, 1, 0, 0, 2, 0, 1, 0, 1, 1, 0, 2, 0, 0);
    assert(t9 * s6 == (9) * mn(p, 0, 2, 2, 0, 2, 2, 0));
    lemma_tm(p, 9, 0, 1, 1, 0, 0, 2, 0, 3, 0, 1, 1, 0, 0, 2, 1);
    assert(t9 * s7 == (27) * mn(p, 0, 2, 2, 0, 0, 4, 1));
    lemma_tm(p, 9, 0, 1, 1, 0, 0, 2, 0, -3, 0, 0, 2, 1, 1, 0, 0);
    assert(t9 * s8 == (-27) * mn(p, 0, 1, 3, 1, 1, 2, 0));
    lemma_tm(p, 9, 0, 1, 1, 0, 0, 2, 0, 3, 0, 0, 2, 0, 1, 1, 1);
    assert(t9 * s9 == (27) * mn(p, 0, 1, 3, 0, 1, 3, 1));
    assert(t9 * q == (27) * mn(p, 2, 1, 1, 1, 1, 2, 0) + (27) * mn(p, 1, 2, 1, 2, 0, 2, 0) + (-27) * mn(p, 1, 2, 1, 0, 0, 4, 0) + (-54) * mn(p, 1, 1, 2, 0, 1, 3, 0) + (9) * mn(p, 0, 3, 1, 0, 1, 3, 0) + (-54) * mn(p, 0, 2, 2, 1, 0, 3, 0) + (9) * mn(p, 0, 2, 2, 0, 2, 2, 0) + (27) * mn(p, 0, 2, 2, 0, 0, 4, 1) + (-27) * mn(p, 0, 1, 3, 1, 1, 2, 0) + (27) * mn(p, 0, 1, 3, 0, 1, 3, 1));
    lemma_tm(p, -3, 0, 0, 2, 1, 1, 0, 1, 3, 2, 0, 0, 1, 1, 0, 0);
    assert(t10 * s0 == (-9) * mn(p, 2, 0, 2, 2, 2, 0, 1));
    lemma_tm(p, -3, 0, 0, 2, 1, 1, 0, 1, 3, 1, 1, 0, 2, 0, 0, 0);
    assert(t10 * s1 == (-9) * mn(p, 1, 1, 2, 3, 1, 0, 1));
    lemma_tm(p, -3, 0, 0, 2, 1, 1, 0, 1, -3, 1, 1, 0, 0, 0, 2, 0);
    assert(t10 * s2 == (9) * mn(p, 1, 1, 2, 1, 1, 2, 1));
    lemma_tm(p, -3, 0, 0, 2, 1, 1, 0, 1, -6, 1, 0, 1, 0, 1, 1, 0);
    assert(t10 * s3 == (18) * mn(p, 1, 0, 3, 1, 2, 1, 1));
    lemma_tm(p, -3, 0, 0, 2, 1, 1, 0, 1, 1, 0, 2, 0, 0, 1, 1, 0);
    assert(t10 * s4 == (-3) * mn(p, 0, 2, 2, 1, 2, 1, 1));
    lemma_tm(p, -3, 0, 0, 2, 1, 1, 0, 1, -6, 0, 1, 1, 1, 0, 1, 0);
    assert(t10 * s5 == (18) * mn(p, 0, 1, 3, 2, 1, 1, 1));
    lemma_tm(p, -3, 0, 0, 2, 1, 1, 0, 1, 1, 0, 1, 1, 0, 2, 0, 0);
    assert(t10 * s6 == (-3) * mn(p, 0, 1, 3, 1, 3, 0, 1));
    lemma_tm(p, -3, 0, 0, 2, 1, 1, 0, 1, 3, 0, 1, 1, 0, 0, 2, 1);
    assert(t10 * s7 == (-9) * mn(p, 0, 1, 3, 1, 1, 2, 2));
    lemma_tm(p, -3, 0, 0, 2, 1, 1, 0, 1, -3, 0, 0, 2, 1, 1, 0, 0);
    assert(t10 * s8 == (9) * mn(p, 0, 0, 4, 2, 2, 0, 1));
    lemma_tm(p, -3, 0, 0, 2, 1, 1, 0, 1, 3, 0, 0, 2, 0, 1, 1, 1);
    assert(t10 * s9 == (-9) * mn(p, 0, 0, 4, 1, 2, 1, 2));
    assert(t10 * q == (-9) * mn(p, 2, 0, 2, 2, 2, 0, 1) + (-9) * mn(p, 1, 1, 2, 3, 1, 0, 1) + (9) * mn(p, 1, 1, 2, 1, 1, 2, 1) + (18) * mn(p, 1, 0, 3, 1, 2, 1, 1) + (-3) * mn(p, 0, 2, 2, 1, 2, 1, 1) + (18) * mn(p, 0, 1, 3, 2, 1, 1, 1) + (-3) * mn(p, 0, 1, 3, 1, 3, 0, 1) + (-9) * mn(p, 0, 1, 3, 1, 1, 2, 2) + (9) * mn(p, 0, 0, 4, 2, 2, 0, 1) + (-9) * mn(p, 0, 0, 4, 1, 2, 1, 2));
    lemma_tm(p, 9, 0, 0, 2, 0, 1, 1, 0, 3, 2, 0, 0, 1, 1, 0, 0);
    assert(t11 * s0 == (27) * mn(p, 2, 0, 2, 1, 2, 1, 0));
    lemma_tm(p, 9, 0, 0, 2, 0, 1, 1, 0, 3, 1, 1, 0, 2, 0, 0, 0);
    assert(t11 * s1 == (27) * mn(p, 1, 1, 2, 2, 1, 1, 0));
    lemma_tm(p, 9, 0, 0, 2, 0, 1, 1, 0, -3, 1, 1, 0, 0, 0, 2, 0);
    assert(t11 * s2 == (-27) * mn(p, 1, 1, 2, 0, 1, 3, 0));
    lemma_tm(p, 9, 0, 0, 2, 0, 1, 1, 0, -6, 1, 0, 1, 0, 1, 1, 0);
    assert(t11 * s3 == (-54) * mn(p, 1, 0, 3, 0, 2, 2, 0));
    lemma_tm(p, 9, 0, 0, 2, 0, 1, 1, 0, 1, 0, 2, 0, 0, 1, 1, 0);
    assert(t11 * s4 == (9) * mn(p, 0, 2, 2, 0, 2, 2, 0));
    lemma_tm(p, 9, 0, 0, 2, 0, 1, 1, 0, -6, 0, 1, 1, 1, 0, 1, 0);
    assert(t11 * s5 == (-54) * mn(p, 0, 1, 3, 1, 1, 2, 0));
    lemma_tm(p, 9, 0, 0, 2, 0, 1, 1, 0, 1, 0, 1, 1, 0, 2, 0, 0);
    assert(t11 * s6 == (9) * mn(p, 0, 1, 3, 0, 3, 1, 0));
    lemma_tm(p, 9, 0, 0, 2, 0, 1, 1, 0, 3, 0, 1, 1, 0, 0, 2, 1);
    assert(t11 * s7 == (27) * mn(p, 0, 1, 3, 0, 1, 3, 1));
    lemma_tm(p, 9, 0, 0, 2, 0, 1, 1, 0, -3, 0, 0, 2, 1, 1, 0, 0);
    assert(t11 * s8 == (-27) * mn(p, 0, 0, 4, 1, 2, 1, 0));
    lemma_tm(p, 9, 0, 0, 2, 0, 1, 1, 0, 3, 0, 0, 2, 0, 1, 1, 1);
    assert(t11 * s9 == (27) * mn(p, 0, 0, 4, 0, 2, 2, 1));
    assert(t11 * q == (27) * mn(p, 2, 0, 2, 1, 2, 1, 0) + (27) * mn(p, 1, 1, 2, 2, 1, 1, 0) + (-27) * mn(p, 1, 1, 2, 0, 1, 3, 0) + (-54) * mn(p, 1, 0, 3, 0, 2, 2, 0) + (9) * mn(p, 0, 2, 2, 0, 2, 2, 0) + (-54) * mn(p, 0, 1, 3, 1, 1, 2, 0) + (9) * mn(p, 0, 1, 3, 0, 3, 1, 0) + (27) * mn(p, 0, 1, 3, 0, 1, 3, 1) + (-27) * mn(p, 0, 0, 4, 1, 2, 1, 0) + (27) * mn(p, 0, 0, 4, 0, 2, 2, 1));
    assert(pp11 * q == (((((((9) * mn(p, 4, 0, 0, 1, 2, 1, 0) + (27) * mn(p, 3, 1, 0, 2, 1, 1, 0)) + ((3) * mn(p, 3, 1, 0, 1, 3, 0, 0) + (-9) * mn(p, 3, 1, 0, 1, 1, 2, 1))) + (((-9) * mn(p, 3, 1, 0, 0, 1, 3, 0) + (18) * mn(p, 3, 0, 1, 2, 2, 0, 0)) + ((-18) * mn(p, 3, 0, 1, 1, 2, 1, 1) + (-18) * mn(p, 3, 0, 1, 0, 2, 2, 0)))) + ((((18) * mn(p, 2, 2, 0, 3, 0, 1, 0) + (6) * mn(p, 2, 2, 0, 2, 2, 0, 0)) + ((-9) * mn(p, 2, 2, 0, 2, 0, 2, 1) + (-18) * mn(p, 2, 2, 0, 1, 0, 3, 0))) + (((9) * mn(p, 2, 2, 0, 0, 0, 4, 1) + (27) * mn(p, 2, 1, 1, 3, 1, 0, 0)) + ((-36) * mn(p, 2, 1, 1, 2, 1, 1, 1) + (-45) * mn(p, 2, 1, 1, 1, 1, 2, 0))))) + (((((-3) * mn(p, 2, 1, 1, 0, 3, 1, 0) + (45) * mn(p, 2, 1, 1, 0, 1, 3, 1)) + ((-9) * mn(p, 2, 0, 2, 2, 2, 0, 1) + (-18) * mn(p, 2, 0, 2, 1, 2, 1, 0))) + (((45) * mn(p, 2, 0, 2, 0, 2, 2, 1) + (3) * mn(p, 1, 3, 0, 3, 1, 0, 0)) + ((3) * mn(p, 1, 3, 0, 1, 1, 2, 0) + (1) * mn(p, 1, 3, 0, 0, 3, 1, 0)))) + ((((-3) * mn(p, 1, 3, 0, 0, 1, 3, 1) + (9) * mn(p, 1, 2, 1, 4, 0, 0, 0)) + ((-18) * mn(p, 1, 2, 1, 3, 0, 1, 1) + (-18) * mn(p, 1, 2, 1, 2, 0, 2, 0))) + (((54) * mn(p, 1, 2, 1, 1, 0, 3, 1) + (1) * mn(p, 1, 2, 1, 0, 4, 0, 0)) + ((-6) * mn(p, 1, 2, 1, 0, 2, 2, 1) + ((-9) * mn(p, 1, 2, 1, 0, 0, 4, 2) + (-27) * mn(p, 1, 2, 1, 0, 0, 4, 0))))))) + ((((((-9) * mn(p, 1, 1, 2, 3, 1, 0, 1) + (-45) * mn(p, 1, 1, 2, 2, 1, 1, 0)) + ((3) * mn(p, 1, 1, 2, 1, 3, 0, 0) + (126) * mn(p, 1, 1, 2, 1, 1, 2, 1))) + (((-3) * mn(p, 1, 1, 2, 0, 3, 1, 1) + (-27) * mn(p, 1, 1, 2, 0, 1, 3, 2)) + ((-81) * mn(p, 1, 1, 2, 0, 1, 3, 0) + (-18) * mn(p, 1, 0, 3, 2, 2, 0, 0)))) + ((((54) * mn(p, 1, 0, 3, 1, 2, 1, 1) + (-18) * mn(p, 1, 0, 3, 0, 2, 2, 2)) + ((-54) * mn(p, 1, 0, 3, 0, 2, 2, 0) + (1) * mn(p, 0, 4, 0, 1, 2, 1, 0))) + (((-3) * mn(p, 0, 3, 1, 2, 1, 1, 0) + (1) * mn(p, 0, 3, 1, 1, 3, 0, 0)) + ((-3) * mn(p, 0, 3, 1, 1, 1, 2, 1) + ((9) * mn(p, 0, 3, 1, 0, 1, 3, 0) + (-18) * mn(p, 0, 2, 2, 3, 0, 1, 0)))))) + (((((45) * mn(p, 0, 2, 2, 2, 0, 2, 1) + (-6) * mn(p, 0, 2, 2, 1, 2, 1, 1)) + ((-18) * mn(p, 0, 2, 2, 1, 0, 3, 2) + (-54) * mn(p, 0, 2, 2, 1, 0, 3, 0))) + (((18) * mn(p, 0, 2, 2, 0, 2, 2, 0) + (27) * mn(p, 0, 2, 2, 0, 0, 4, 1)) + ((-9) * mn(p, 0, 1, 3, 3, 1, 0, 0) + (45) * mn(p, 0, 1, 3, 2, 1, 1, 1)))) + ((((-3) * mn(p, 0, 1, 3, 1, 3, 0, 1) + (-27) * mn(p, 0, 1, 3, 1, 1, 2, 2)) + ((-81) * mn(p, 0, 1, 3, 1, 1, 2, 0) + (9) * mn(p, 0, 1, 3, 0, 3, 1, 0))) + (((54) * mn(p, 0, 1, 3, 0, 1, 3, 1) + (9) * mn(p, 0, 0, 4, 2, 2, 0, 1)) + ((-9) * mn(p, 0, 0, 4, 1, 2, 1, 2) + ((-27) * mn(p, 0, 0, 4, 1, 2, 1, 0) + (27) * mn(p, 0, 0, 4, 0, 2, 2, 1)))))))));
    assert(pp11 == ((((3) * mn(p, 2, 0, 0, 0, 1, 1, 0) + ((6) * mn(p, 1, 1, 0, 1, 0, 1, 0) + (1) * mn(p, 1, 1, 0, 0, 2, 0, 0))) + ((-3) * mn(p, 1, 1, 0, 0, 0, 2, 1) + ((6) * mn(p, 1, 0, 1, 1, 1, 0, 0) + (-6) * mn(p, 1, 0, 1, 0, 1, 1, 1)))) + (((1) * mn(p, 0, 2, 0, 1, 1, 0, 0) + ((3) * mn(p, 0, 1, 1, 2, 0, 0, 0) + (-6) * mn(p, 0, 1, 1, 1, 0, 1, 1))) + ((9) * mn(p, 0, 1, 1, 0, 0, 2, 0) + ((-3) * mn(p, 0, 0, 2, 1, 1, 0, 1) + (9) * mn(p, 0, 0, 2, 0, 1, 1, 0))))));
    assert(q == ((((3) * mn(p, 2, 0, 0, 1, 1, 0, 0) + (3) * mn(p, 1, 1, 0, 2, 0, 0, 0)) + ((-3) * mn(p, 1, 1, 0, 0, 0, 2, 0) + ((-6) * mn(p, 1, 0, 1, 0, 1, 1, 0) + (1) * mn(p, 0, 2, 0, 0, 1, 1, 0)))) + (((-6) * mn(p, 0, 1, 1, 1, 0, 1, 0) + (1) * mn(p, 0, 1, 1, 0, 2, 0, 0)) + ((3) * mn(p, 0, 1, 1, 0, 0, 2, 1) + ((-3) * mn(p, 0, 0, 2, 1, 1, 0, 0) + (3) * mn(p, 0, 0, 2, 0, 1, 1, 1))))));
}

#[verifier::rlimit(100)]
proof fn acb_prod12(p: Pt)
    ensures
        ((((((((9) * mn(p, 4, 0, 0, 1, 2, 1, 0) + (27) * mn(p, 3, 1, 0, 2, 1, 1, 0)) + ((3) * mn(p, 3, 1, 0, 1, 3, 0, 0) + (-9) * mn(p, 3, 1, 0, 1, 1, 2, 1))) + (((-9) * mn(p, 3, 1, 0, 0, 1, 3, 0) + (18) * mn(p, 3, 0, 1, 2, 2, 0, 0)) + ((-18) * mn(p, 3, 0, 1, 1, 2, 1, 1) + (-18) * mn(p, 3, 0, 1, 0, 2, 2, 0)))) + ((((18) * mn(p, 2, 2, 0, 3, 0, 1, 0) + (6) * mn(p, 2, 2, 0, 2, 2, 0, 0)) + ((-9) * mn(p, 2, 2, 0, 2, 0, 2, 1) + (-18) * mn(p, 2, 2, 0, 1, 0, 3, 0))) + (((9) * mn(p, 2, 2, 0, 0, 0, 4, 1) + (27) * mn(p, 2, 1, 1, 3, 1, 0, 0)) + ((-36) * mn(p, 2, 1, 1, 2, 1, 1, 1) + (-45) * mn(p, 2, 1, 1, 1, 1, 2, 0))))) + (((((-3) * mn(p, 2, 1, 1, 0, 3, 1, 0) + (45) * mn(p, 2, 1, 1, 0, 1, 3, 1)) + ((-9) * mn(p, 2, 0, 2, 2, 2, 0, 1) + (-18) * mn(p, 2, 0, 2, 1, 2, 1, 0))) + (((45) * mn(p, 2, 0, 2, 0, 2, 2, 1) + (3) * mn(p, 1, 3, 0, 3, 1, 0, 0)) + ((3) * mn(p, 1, 3, 0, 1, 1, 2, 0) + (1) * mn(p, 1, 3, 0, 0, 3, 1, 0)))) + ((((-3) * mn(p, 1, 3, 0, 0, 1, 3, 1) + (9) * mn(p, 1, 2, 1, 4, 0, 0, 0)) + ((-18) * mn(p, 1, 2, 1, 3, 0, 1, 1) + (-18) * mn(p, 1, 2, 1, 2, 0, 2, 0))) + (((54) * mn(p, 1, 2, 1, 1, 0, 3, 1) + (1) * mn(p, 1, 2, 1, 0, 4, 0, 0)) + ((-6) * mn(p, 1, 2, 1, 0, 2, 2, 1) + ((-9) * mn(p, 1, 2, 1, 0, 0, 4, 2) + (-27) * mn(p, 1, 2, 1, 0, 0, 4, 0))))))) + ((((((-9) * mn(p, 1, 1, 2, 3, 1, 0, 1) + (-45) * mn(p, 1, 1, 2, 2, 1, 1, 0)) + ((3) * mn(p, 1, 1, 2, 1, 3, 0, 0) + (126) * mn(p, 1, 1, 2, 1, 1, 2, 1))) + (((-3) * mn(p, 1, 1, 2, 0, 3, 1, 1) + (-27) * mn(p, 1, 1, 2, 0, 1, 3, 2)) + ((-81) * mn(p, 1, 1, 2, 0, 1, 3, 0) + (-18) * mn(p, 1, 0, 3, 2, 2, 0, 0)))) + ((((54) * mn(p, 1, 0, 3, 1, 2, 1, 1) + (-18) * mn(p, 1, 0, 3, 0, 2, 2, 2)) + ((-54) * mn(p, 1, 0, 3, 0, 2, 2, 0) + (1) * mn(p, 0, 4, 0, 1, 2, 1, 0))) + (((-3) * mn(p, 0, 3, 1, 2, 1, 1, 0) + (1) * mn(p, 0, 3, 1, 1, 3, 0, 0)) + ((-3) * mn(p, 0, 3, 1, 1, 1, 2, 1) + ((9) * mn(p, 0, 3, 1, 0, 1, 3, 0) + (-18) * mn(p, 0, 2, 2, 3, 0, 1, 0)))))) + (((((45) * mn(p, 0, 2, 2, 2, 0, 2, 1) + (-6) * mn(p, 0, 2, 2, 1, 2, 1, 1)) + ((-18) * mn(p, 0, 2, 2, 1, 0, 3, 2) + (-54) * mn(p, 0, 2, 2, 1, 0, 3, 0))) + (((18) * mn(p, 0, 2, 2, 0, 2, 2, 0) + (27) * mn(p, 0, 2, 2, 0, 0, 4, 1)) + ((-9) * mn(p, 0, 1, 3, 3, 1, 0, 0) + (45) * mn(p, 0, 1, 3, 2, 1, 1, 1)))) + ((((-3) * mn(p, 0, 1, 3, 1, 3, 0, 1) + (-27) * mn(p, 0, 1, 3, 1, 1, 2, 2)) + ((-81) * mn(p, 0, 1, 3, 1, 1, 2, 0) + (9) * mn(p, 0, 1, 3, 0, 3, 1, 0))) + (((54) * mn(p, 0, 1, 3, 0, 1, 3, 1) + (9) * mn(p, 0, 0, 4, 2, 2, 0, 1)) + ((-9) * mn(p, 0, 0, 4, 1, 2, 1, 2) + ((-27) * mn(p, 0, 0, 4, 1, 2, 1, 0) + (27) * mn(p, 0, 0, 4, 0, 2, 2, 1))))))))) * (((((3) * mn(p, 2, 0, 0, 1, 1, 0, 0) + (3) * mn(p, 1, 1, 0, 2, 0, 0, 0)) + ((-3) * mn(p, 1, 1, 0, 0, 0, 2, 0) + ((-6) * mn(p, 1, 0, 1, 0, 1, 1, 0) + (1) * mn(p, 0, 2, 0, 0, 1, 1, 0)))) + (((-6) * mn(p, 0, 1, 1, 1, 0, 1, 0) + (1) * mn(p, 0, 1, 1, 0, 2, 0, 0)) + ((3) * mn(p, 0, 1, 1, 0, 0, 2, 1) + ((-3) * mn(p, 0, 0, 2, 1, 1, 0, 0) + (3) * mn(p, 0, 0, 2, 0, 1, 1, 1)))))) == ((((((((27) * mn(p, 6, 0, 0, 2, 3, 1, 0) + ((108) * mn(p, 5, 1, 0, 3, 2, 1, 0) + (9) * mn(p, 5, 1, 0, 2, 4, 0, 0))) + (((-27) * mn(p, 5, 1, 0, 2, 2, 2, 1) + (-54) * mn(p, 5, 1, 0, 1, 2, 3, 0)) + ((54) * mn(p, 5, 0, 1, 3, 3, 0, 0) + (-54) * mn(p, 5, 0, 1, 2, 3, 1, 1)))) + (((-108) * mn(p, 5, 0, 1, 1, 3, 2, 0) + ((135) * mn(p, 4, 2, 0, 4, 1, 1, 0) + (27) * mn(p, 4, 2, 0, 3, 3, 0, 0))) + (((-54) * mn(p, 4, 2, 0, 3, 1, 2, 1) + (-162) * mn(p, 4, 2, 0, 2, 1, 3, 0)) + ((54) * mn(p, 4, 2, 0, 1, 1, 4, 1) + (27) * mn(p, 4, 2, 0, 0, 1, 5, 0))))) + ((((135) * mn(p, 4, 1, 1, 4, 2, 0, 0) + ((-162) * mn(p, 4, 1, 1, 3, 2, 1, 1) + (-459) * mn(p, 4, 1, 1, 2, 2, 2, 0))) + (((-18) * mn(p, 4, 1, 1, 1, 4, 1, 0) + (270) * mn(p, 4, 1, 1, 1, 2, 3, 1)) + ((108) * mn(p, 4, 1, 1, 0, 2, 4, 0) + (-27) * mn(p, 4, 0, 2, 3, 3, 0, 1)))) + (((-189) * mn(p, 4, 0, 2, 2, 3, 1, 0) + ((270) * mn(p, 4, 0, 2, 1, 3, 2, 1) + (108) * mn(p, 4, 0, 2, 0, 3, 3, 0))) + (((54) * mn(p, 3, 3, 0, 5, 0, 1, 0) + (27) * mn(p, 3, 3, 0, 4, 2, 0, 0)) + ((-27) * mn(p, 3, 3, 0, 4, 0, 2, 1) + (-108) * mn(p, 3, 3, 0, 3, 0, 3, 0)))))) + (((((18) * mn(p, 3, 3, 0, 2, 2, 2, 0) + ((54) * mn(p, 3, 3, 0, 2, 0, 4, 1) + (6) * mn(p, 3, 3, 0, 1, 4, 1, 0))) + (((-18) * mn(p, 3, 3, 0, 1, 2, 3, 1) + (54) * mn(p, 3, 3, 0, 1, 0, 5, 0)) + ((-9) * mn(p, 3, 3, 0, 0, 2, 4, 0) + (-27) * mn(p, 3, 3, 0, 0, 0, 6, 1)))) + (((108) * mn(p, 3, 2, 1, 5, 1, 0, 0) + ((-162) * mn(p, 3, 2, 1, 4, 1, 1, 1) + (-540) * mn(p, 3, 2, 1, 3, 1, 2, 0))) + (((-18) * mn(p, 3, 2, 1, 2, 3, 1, 0) + (594) * mn(p, 3, 2, 1, 2, 1, 3, 1)) + ((6) * mn(p, 3, 2, 1, 1, 5, 0, 0) + (-36) * mn(p, 3, 2, 1, 1, 3, 2, 1))))) + ((((-54) * mn(p, 3, 2, 1, 1, 1, 4, 2) + ((216) * mn(p, 3, 2, 1, 1, 1, 4, 0) + (-18) * mn(p, 3, 2, 1, 0, 3, 3, 0))) + (((-216) * mn(p, 3, 2, 1, 0, 1, 5, 1) + (-54) * mn(p, 3, 1, 2, 4, 2, 0, 1)) + ((-540) * mn(p, 3, 1, 2, 3, 2, 1, 0) + (18) * mn(p, 3, 1, 2, 2, 4, 0, 0)))) + (((1026) * mn(p, 3, 1, 2, 2, 2, 2, 1) + ((-18) * mn(p, 3, 1, 2, 1, 4, 1, 1) + (-162) * mn(p, 3, 1, 2, 1, 2, 3, 2))) + (((216) * mn(p, 3, 1, 2, 1, 2, 3, 0) + (-486) * mn(p, 3, 1, 2, 0, 2, 4, 1)) + ((-108) * mn(p, 3, 0, 3, 3, 3, 0, 0) + (324) * mn(p, 3, 0, 3, 2, 3, 1, 1))))))) + ((((((-108) * mn(p, 3, 0, 3, 1, 3, 2, 2) + ((-324) * mn(p, 3, 0, 3, 0, 3, 3, 1) + (9) * mn(p, 2, 4, 0, 5, 1, 0, 0))) + (((18) * mn(p, 2, 4, 0, 3, 1, 2, 0) + (12) * mn(p, 2, 4, 0, 2, 3, 1, 0)) + ((-18) * mn(p, 2, 4, 0, 2, 1, 3, 1) + (-27) * mn(p, 2, 4, 0, 1, 1, 4, 0)))) + (((-3) * mn(p, 2, 4, 0, 0, 3, 3, 0) + ((18) * mn(p, 2, 4, 0, 0, 1, 5, 1) + (27) * mn(p, 2, 3, 1, 6, 0, 0, 0))) + (((-54) * mn(p, 2, 3, 1, 5, 0, 1, 1) + (-189) * mn(p, 2, 3, 1, 4, 0, 2, 0)) + ((-18) * mn(p, 2, 3, 1, 3, 2, 1, 0) + (324) * mn(p, 2, 3, 1, 3, 0, 3, 1))))) + ((((12) * mn(p, 2, 3, 1, 2, 4, 0, 0) + ((-54) * mn(p, 2, 3, 1, 2, 2, 2, 1) + (-54) * mn(p, 2, 3, 1, 2, 0, 4, 2))) + (((81) * mn(p, 2, 3, 1, 2, 0, 4, 0) + (-54) * mn(p, 2, 3, 1, 1, 2, 3, 0)) + ((-270) * mn(p, 2, 3, 1, 1, 0, 5, 1) + (-12) * mn(p, 2, 3, 1, 0, 4, 2, 0)))) + (((90) * mn(p, 2, 3, 1, 0, 2, 4, 1) + ((54) * mn(p, 2, 3, 1, 0, 0, 6, 2) + (81) * mn(p, 2, 3, 1, 0, 0, 6, 0))) + (((-27) * mn(p, 2, 2, 2, 5, 1, 0, 1) + (-459) * mn(p, 2, 2, 2, 4, 1, 1, 0)) + ((18) * mn(p, 2, 2, 2, 3, 3, 0, 0) + (1026) * mn(p, 2, 2, 2, 3, 1, 2, 1)))))) + (((((-54) * mn(p, 2, 2, 2, 2, 3, 1, 1) + ((-270) * mn(p, 2, 2, 2, 2, 1, 3, 2) + (162) * mn(p, 2, 2, 2, 2, 1, 3, 0))) + (((-1107) * mn(p, 2, 2, 2, 1, 1, 4, 1) + (-9) * mn(p, 2, 2, 2, 0, 5, 1, 0)) + ((126) * mn(p, 2, 2, 2, 0, 3, 3, 1) + (297) * mn(p, 2, 2, 2, 0, 1, 5, 2)))) + (((405) * mn(p, 2, 2, 2, 0, 1, 5, 0) + ((-162) * mn(p, 2, 1, 3, 4, 2, 0, 0) + (594) * mn(p, 2, 1, 3, 3, 2, 1, 1))) + (((-18) * mn(p, 2, 1, 3, 2, 4, 0, 1) + (-270) * mn(p, 2, 1, 3, 2, 2, 2, 2)) + ((162) * mn(p, 2, 1, 3, 2, 2, 2, 0) + (-1350) * mn(p, 2, 1, 3, 1, 2, 3, 1))))) + ((((54) * mn(p, 2, 1, 3, 0, 4, 2, 1) + ((486) * mn(p, 2, 1, 3, 0, 2, 4, 2) + (648) * mn(p, 2, 1, 3, 0, 2, 4, 0))) + (((54) * mn(p, 2, 0, 4, 3, 3, 0, 1) + (-54) * mn(p, 2, 0, 4, 2, 3, 1, 2)) + ((81) * mn(p, 2, 0, 4, 2, 3, 1, 0) + (-432) * mn(p, 2, 0, 4, 1, 3, 2, 1)))) + (((243) * mn(p, 2, 0, 4, 0, 3, 3, 2) + ((324) * mn(p, 2, 0, 4, 0, 3, 3, 0) + (6) * mn(p, 1, 5, 0, 3, 2, 1, 0))) + (((1) * mn(p, 1, 5, 0, 0, 4, 2, 0) + (-3) * mn(p, 1, 5, 0, 0, 2, 4, 1)) + ((-18) * mn(p, 1, 4, 1, 4, 1, 1, 0) + (6) * mn(p, 1, 4, 1, 3, 3, 0, 0)))))))) + (((((((-18) * mn(p, 1, 4, 1, 3, 1, 2, 1) + ((-12) * mn(p, 1, 4, 1, 1, 3, 2, 0) + (90) * mn(p, 1, 4, 1, 1, 1, 4, 1))) + (((2) * mn(p, 1, 4, 1, 0, 5, 1, 0) + (-6) * mn(p, 1, 4, 1, 0, 3, 3, 1)) + ((-18) * mn(p, 1, 4, 1, 0, 1, 5, 2) + (-54) * mn(p, 1, 4, 1, 0, 1, 5, 0)))) + (((-108) * mn(p, 1, 3, 2, 5, 0, 1, 0) + ((270) * mn(p, 1, 3, 2, 4, 0, 2, 1) + (-36) * mn(p, 1, 3, 2, 3, 2, 1, 1))) + (((-108) * mn(p, 1, 3, 2, 3, 0, 3, 2) + (-432) * mn(p, 1, 3, 2, 2, 0, 4, 1)) + ((-12) * mn(p, 1, 3, 2, 1, 4, 1, 0) + (270) * mn(p, 1, 3, 2, 1, 2, 3, 1))))) + ((((270) * mn(p, 1, 3, 2, 1, 0, 5, 2) + ((324) * mn(p, 1, 3, 2, 1, 0, 5, 0) + (1) * mn(p, 1, 3, 2, 0, 6, 0, 0))) + (((-3) * mn(p, 1, 3, 2, 0, 4, 2, 1) + (-63) * mn(p, 1, 3, 2, 0, 2, 4, 2)) + ((-216) * mn(p, 1, 3, 2, 0, 2, 4, 0) + (-27) * mn(p, 1, 3, 2, 0, 0, 6, 3)))) + (((-162) * mn(p, 1, 3, 2, 0, 0, 6, 1) + ((-54) * mn(p, 1, 2, 3, 5, 1, 0, 0) + (270) * mn(p, 1, 2, 3, 4, 1, 1, 1))) + (((-18) * mn(p, 1, 2, 3, 3, 3, 0, 1) + (-162) * mn(p, 1, 2, 3, 3, 1, 2, 2)) + ((216) * mn(p, 1, 2, 3, 3, 1, 2, 0) + (-54) * mn(p, 1, 2, 3, 2, 3, 1, 0)))))) + (((((-1350) * mn(p, 1, 2, 3, 2, 1, 3, 1) + ((270) * mn(p, 1, 2, 3, 1, 3, 2, 1) + (918) * mn(p, 1, 2, 3, 1, 1, 4, 2))) + (((1134) * mn(p, 1, 2, 3, 1, 1, 4, 0) + (-72) * mn(p, 1, 2, 3, 0, 3, 3, 2)) + ((-270) * mn(p, 1, 2, 3, 0, 3, 3, 0) + (-108) * mn(p, 1, 2, 3, 0, 1, 5, 3)))) + (((-648) * mn(p, 1, 2, 3, 0, 1, 5, 1) + ((54) * mn(p, 1, 1, 4, 4, 2, 0, 1) + (-54) * mn(p, 1, 1, 4, 3, 2, 1, 2))) + (((216) * mn(p, 1, 1, 4, 3, 2, 1, 0) + (-27) * mn(p, 1, 1, 4, 2, 4, 0, 0)) + ((-1107) * mn(p, 1, 1, 4, 2, 2, 2, 1) + (90) * mn(p, 1, 1, 4, 1, 4, 1, 1))))) + ((((918) * mn(p, 1, 1, 4, 1, 2, 3, 2) + ((1134) * mn(p, 1, 1, 4, 1, 2, 3, 0) + (-27) * mn(p, 1, 1, 4, 0, 4, 2, 2))) + (((-108) * mn(p, 1, 1, 4, 0, 4, 2, 0) + (-135) * mn(p, 1, 1, 4, 0, 2, 4, 3)) + ((-810) * mn(p, 1, 1, 4, 0, 2, 4, 1) + (54) * mn(p, 1, 0, 5, 3, 3, 0, 0)))) + (((-270) * mn(p, 1, 0, 5, 2, 3, 1, 1) + ((270) * mn(p, 1, 0, 5, 1, 3, 2, 2) + (324) * mn(p, 1, 0, 5, 1, 3, 2, 0))) + (((-54) * mn(p, 1, 0, 5, 0, 3, 3, 3) + (-324) * mn(p, 1, 0, 5, 0, 3, 3, 1)) + ((1) * mn(p, 0, 6, 0, 1, 3, 2, 0) + (-9) * mn(p, 0, 5, 1, 2, 2, 2, 0))))))) + ((((((2) * mn(p, 0, 5, 1, 1, 4, 1, 0) + ((9) * mn(p, 0, 5, 1, 0, 2, 4, 0) + (-12) * mn(p, 0, 4, 2, 2, 3, 1, 0))) + (((54) * mn(p, 0, 4, 2, 2, 1, 3, 1) + (1) * mn(p, 0, 4, 2, 1, 5, 0, 0)) + ((-3) * mn(p, 0, 4, 2, 1, 3, 2, 1) + (-27) * mn(p, 0, 4, 2, 1, 1, 4, 2)))) + (((-108) * mn(p, 0, 4, 2, 1, 1, 4, 0) + ((27) * mn(p, 0, 4, 2, 0, 3, 3, 0) + (54) * mn(p, 0, 4, 2, 0, 1, 5, 1))) + (((108) * mn(p, 0, 3, 3, 4, 0, 2, 0) + (-18) * mn(p, 0, 3, 3, 3, 2, 1, 0)) + ((-324) * mn(p, 0, 3, 3, 3, 0, 3, 1) + (-3) * mn(p, 0, 3, 3, 2, 4, 0, 0))))) + ((((126) * mn(p, 0, 3, 3, 2, 2, 2, 1) + ((243) * mn(p, 0, 3, 3, 2, 0, 4, 2) + (324) * mn(p, 0, 3, 3, 2, 0, 4, 0))) + (((-6) * mn(p, 0, 3, 3, 1, 4, 1, 1) + (-72) * mn(p, 0, 3, 3, 1, 2, 3, 2)) + ((-270) * mn(p, 0, 3, 3, 1, 2, 3, 0) + (-54) * mn(p, 0, 3, 3, 1, 0, 5, 3)))) + (((-324) * mn(p, 0, 3, 3, 1, 0, 5, 1) + ((27) * mn(p, 0, 3, 3, 0, 4, 2, 0) + (162) * mn(p, 0, 3, 3, 0, 2, 4, 1))) + (((81) * mn(p, 0, 3, 3, 0, 0, 6, 2) + (108) * mn(p, 0, 2, 4, 4, 1, 1, 0)) + ((-9) * mn(p, 0, 2, 4, 3, 3, 0, 0) + (-486) * mn(p, 0, 2, 4, 3, 1, 2, 1)))))) + (((((90) * mn(p, 0, 2, 4, 2, 3, 1, 1) + ((486) * mn(p, 0, 2, 4, 2, 1, 3, 2) + (648) * mn(p, 0, 2, 4, 2, 1, 3, 0))) + (((-3) * mn(p, 0, 2, 4, 1, 5, 0, 1) + (-63) * mn(p, 0, 2, 4, 1, 3, 2, 2)) + ((-216) * mn(p, 0, 2, 4, 1, 3, 2, 0) + (-135) * mn(p, 0, 2, 4, 1, 1, 4, 3)))) + (((-810) * mn(p, 0, 2, 4, 1, 1, 4, 1) + ((9) * mn(p, 0, 2, 4, 0, 5, 1, 0) + (162) * mn(p, 0, 2, 4, 0, 3, 3, 1))) + (((243) * mn(p, 0, 2, 4, 0, 1, 5, 2) + (27) * mn(p, 0, 1, 5, 4, 2, 0, 0)) + ((-216) * mn(p, 0, 1, 5, 3, 2, 1, 1) + (18) * mn(p, 0, 1, 5, 2, 4, 0, 1))))) + ((((297) * mn(p, 0, 1, 5, 2, 2, 2, 2) + ((405) * mn(p, 0, 1, 5, 2, 2, 2, 0) + (-18) * mn(p, 0, 1, 5, 1, 4, 1, 2))) + (((-54) * mn(p, 0, 1, 5, 1, 4, 1, 0) + (-108) * mn(p, 0, 1, 5, 1, 2, 3, 3)) + ((-648) * mn(p, 0, 1, 5, 1, 2, 3, 1) + (54) * mn(p, 0, 1, 5, 0, 4, 2, 1)))) + (((243) * mn(p, 0, 1, 5, 0, 2, 4, 2) + ((-27) * mn(p, 0, 0, 6, 3, 3, 0, 1) + (54) * mn(p, 0, 0, 6, 2, 3, 1, 2))) + (((81) * mn(p, 0, 0, 6, 2, 3, 1, 0) + (-27) * mn(p, 0, 0, 6, 1, 3, 2, 3)) + ((-162) * mn(p, 0, 0, 6, 1, 3, 2, 1) + (81) * mn(p, 0, 0, 6, 0, 3, 3, 2))))))))),
{
    let c0 = ((((((9) * mn(p, 4, 0, 0, 1, 2, 1, 0) + (27) * mn(p, 3, 1, 0, 2, 1, 1, 0)) + ((3) * mn(p, 3, 1, 0, 1, 3, 0, 0) + (-9) * mn(p, 3, 1, 0, 1, 1, 2, 1))) + (((-9) * mn(p, 3, 1, 0, 0, 1, 3, 0) + (18) * mn(p, 3, 0, 1, 2, 2, 0, 0)) + ((-18) * mn(p, 3, 0, 1, 1, 2, 1, 1) + (-18) * mn(p, 3, 0, 1, 0, 2, 2, 0)))) + ((((18) * mn(p, 2, 2, 0, 3, 0, 1, 0) + (6) * mn(p, 2, 2, 0, 2, 2, 0, 0)) + ((-9) * mn(p, 2, 2, 0, 2, 0, 2, 1) + (-18) * mn(p, 2, 2, 0, 1, 0, 3, 0))) + (((9) * mn(p, 2, 2, 0, 0, 0, 4, 1) + (27) * mn(p, 2, 1, 1, 3, 1, 0, 0)) + ((-36) * mn(p, 2, 1, 1, 2, 1, 1, 1) + (-45) * mn(p, 2, 1, 1, 1, 1, 2, 0))))) + (((((-3) * mn(p, 2, 1, 1, 0, 3, 1, 0) + (45) * mn(p, 2, 1, 1, 0, 1, 3, 1)) + ((-9) * mn(p, 2, 0, 2, 2, 2, 0, 1) + (-18) * mn(p, 2, 0, 2, 1, 2, 1, 0))) + (((45) * mn(p, 2, 0, 2, 0, 2, 2, 1) + (3) * mn(p, 1, 3, 0, 3, 1, 0, 0)) + ((3) * mn(p, 1, 3, 0, 1, 1, 2, 0) + (1) * mn(p, 1, 3, 0, 0, 3, 1, 0)))) + ((((-3) * mn(p, 1, 3, 0, 0, 1, 3, 1) + (9) * mn(p, 1, 2, 1, 4, 0, 0, 0)) + ((-18) * mn(p, 1, 2, 1, 3, 0, 1, 1) + (-18) * mn(p, 1, 2, 1, 2, 0, 2, 0))) + (((54) * mn(p, 1, 2, 1, 1, 0, 3, 1) + (1) * mn(p, 1, 2, 1, 0, 4, 0, 0)) + ((-6) * mn(p, 1, 2, 1, 0, 2, 2, 1) + (-9) * mn(p, 1, 2, 1, 0, 0, 4, 2))))));
    let c1 = ((((((-27) * mn(p, 1, 2, 1, 0, 0, 4, 0) + (-9) * mn(p, 1, 1, 2, 3, 1, 0, 1)) + ((-45) * mn(p, 1, 1, 2, 2, 1, 1, 0) + (3) * mn(p, 1, 1, 2, 1, 3, 0, 0))) + (((126) * mn(p, 1, 1, 2, 1, 1, 2, 1) + (-3) * mn(p, 1, 1, 2, 0, 3, 1, 1)) + ((-27) * mn(p, 1, 1, 2, 0, 1, 3, 2) + (-81) * mn(p, 1, 1, 2, 0, 1, 3, 0)))) + ((((-18) * mn(p, 1, 0, 3, 2, 2, 0, 0) + (54) * mn(p, 1, 0, 3, 1, 2, 1, 1)) + ((-18) * mn(p, 1, 0, 3, 0, 2, 2, 2) + (-54) * mn(p, 1, 0, 3, 0, 2, 2, 0))) + (((1) * mn(p, 0, 4, 0, 1, 2, 1, 0) + (-3) * mn(p, 0, 3, 1, 2, 1, 1, 0)) + ((1) * mn(p, 0, 3, 1, 1, 3, 0, 0) + (-3) * mn(p, 0, 3, 1, 1, 1, 2, 1))))) + (((((9) * mn(p, 0, 3, 1, 0, 1, 3, 0) + (-18) * mn(p, 0, 2, 2, 3, 0, 1, 0)) + ((45) * mn(p, 0, 2, 2, 2, 0, 2, 1) + (-6) * mn(p, 0, 2, 2, 1, 2, 1, 1))) + (((-18) * mn(p, 0, 2, 2, 1, 0, 3, 2) + (-54) * mn(p, 0, 2, 2, 1, 0, 3, 0)) + ((18) * mn(p, 0, 2, 2, 0, 2, 2, 0) + (27) * mn(p, 0, 2, 2, 0, 0, 4, 1)))) + ((((-9) * mn(p, 0, 1, 3, 3, 1, 0, 0) + (45) * mn(p, 0, 1, 3, 2, 1, 1, 1)) + ((-3) * mn(p, 0, 1, 3, 1, 3, 0, 1) + (-27) * mn(p, 0, 1, 3, 1, 1, 2, 2))) + (((-81) * mn(p, 0, 1, 3, 1, 1, 2, 0) + (9) * mn(p, 0, 1, 3, 0, 3, 1, 0)) + ((54) * mn(p, 0, 1, 3, 0, 1, 3, 1) + (9) * mn(p, 0, 0, 4, 2, 2, 0, 1))))));
    let c2 = ((-9) * mn(p, 0, 0, 4, 1, 2, 1, 2) + ((-27) * mn(p, 0, 0, 4, 1, 2, 1, 0) + (27) * mn(p, 0, 0, 4, 0, 2, 2, 1)));
    let cc0 = c0;
    let cc1 = cc0 + c1;
    let cc2 = cc1 + c2;
    assert(cc2 == (((((((9) * mn(p, 4, 0, 0, 1, 2, 1, 0) + (27) * mn(p, 3, 1, 0, 2, 1, 1, 0)) + ((3) * mn(p, 3, 1, 0, 1, 3, 0, 0) + (-9) * mn(p, 3, 1, 0, 1, 1, 2, 1))) + (((-9) * mn(p, 3, 1, 0, 0, 1, 3, 0) + (18) * mn(p, 3, 0, 1, 2, 2, 0, 0)) + ((-18) * mn(p, 3, 0, 1, 1, 2, 1, 1) + (-18) * mn(p, 3, 0, 1, 0, 2, 2, 0)))) + ((((18) * mn(p, 2, 2, 0, 3, 0, 1, 0) + (6) * mn(p, 2, 2, 0, 2, 2, 0, 0)) + ((-9) * mn(p, 2, 2, 0, 2, 0, 2, 1) + (-18) * mn(p, 2, 2, 0, 1, 0, 3, 0))) + (((9) * mn(p, 2, 2, 0, 0, 0, 4, 1) + (27) * mn(p, 2, 1, 1, 3, 1, 0, 0)) + ((-36) * mn(p, 2, 1, 1, 2, 1, 1, 1) + (-45) * mn(p, 2, 1, 1, 1, 1, 2, 0))))) + (((((-3) * mn(p, 2, 1, 1, 0, 3, 1, 0) + (45) * mn(p, 2, 1, 1, 0, 1, 3, 1)) + ((-9) * mn(p, 2, 0, 2, 2, 2, 0, 1) + (-18) * mn(p, 2, 0, 2, 1, 2, 1, 0))) + (((45) * mn(p, 2, 0, 2, 0, 2, 2, 1) + (3) * mn(p, 1, 3, 0, 3, 1, 0, 0)) + ((3) * mn(p, 1, 3, 0, 1, 1, 2, 0) + (1) * mn(p, 1, 3, 0, 0, 3, 1, 0)))) + ((((-3) * mn(p, 1, 3, 0, 0, 1, 3, 1) + (9) * mn(p, 1, 2, 1, 4, 0, 0, 0)) + ((-18) * mn(p, 1, 2, 1, 3, 0, 1, 1) + (-18) * mn(p, 1, 2, 1, 2, 0, 2, 0))) + (((54) * mn(p, 1, 2, 1, 1, 0, 3, 1) + (1) * mn(p, 1, 2, 1, 0, 4, 0, 0)) + ((-6) * mn(p, 1, 2, 1, 0, 2, 2, 1) + ((-9) * mn(p, 1, 2, 1, 0, 0, 4, 2) + (-27) * mn(p, 1, 2, 1, 0, 0, 4, 0))))))) + ((((((-9) * mn(p, 1, 1, 2, 3, 1, 0, 1) + (-45) * mn(p, 1, 1, 2, 2, 1, 1, 0)) + ((3) * mn(p, 1, 1, 2, 1, 3, 0, 0) + (126) * mn(p, 1, 1, 2, 1, 1, 2, 1))) + (((-3) * mn(p, 1, 1, 2, 0, 3, 1, 1) + (-27) * mn(p, 1, 1, 2, 0, 1, 3, 2)) + ((-81) * mn(p, 1, 1, 2, 0, 1, 3, 0) + (-18) * mn(p, 1, 0, 3, 2, 2, 0, 0)))) + ((((54) * mn(p, 1, 0, 3, 1, 2, 1, 1) + (-18) * mn(p, 1, 0, 3, 0, 2, 2, 2)) + ((-54) * mn(p, 1, 0, 3, 0, 2, 2, 0) + (1) * mn(p, 0, 4, 0, 1, 2, 1, 0))) + (((-3) * mn(p, 0, 3, 1, 2, 1, 1, 0) + (1) * mn(p, 0, 3, 1, 1, 3, 0, 0)) + ((-3) * mn(p, 0, 3, 1, 1, 1, 2, 1) + ((9) * mn(p, 0, 3, 1, 0, 1, 3, 0) + (-18) * mn(p, 0, 2, 2, 3, 0, 1, 0)))))) + (((((45) * mn(p, 0, 2, 2, 2, 0, 2, 1) + (-6) * mn(p, 0, 2, 2, 1, 2, 1, 1)) + ((-18) * mn(p, 0, 2, 2, 1, 0, 3, 2) + (-54) * mn(p, 0, 2, 2, 1, 0, 3, 0))) + (((18) * mn(p, 0, 2, 2, 0, 2, 2, 0) + (27) * mn(p, 0, 2, 2, 0, 0, 4, 1)) + ((-9) * mn(p, 0, 1, 3, 3, 1, 0, 0) + (45) * mn(p, 0, 1, 3, 2, 1, 1, 1)))) + ((((-3) * mn(p, 0, 1, 3, 1, 3, 0, 1) + (-27) * mn(p, 0, 1, 3, 1, 1, 2, 2)) + ((-81) * mn(p, 0, 1, 3, 1, 1, 2, 0) + (9) * mn(p, 0, 1, 3, 0, 3, 1, 0))) + (((54) * mn(p, 0, 1, 3, 0, 1, 3, 1) + (9) * mn(p, 0, 0, 4, 2, 2, 0, 1)) + ((-9) * mn(p, 0, 0, 4, 1, 2, 1, 2) + ((-27) * mn(p, 0, 0, 4, 1, 2, 1, 0) + (27) * mn(p, 0, 0, 4, 0, 2, 2, 1)))))))));
    let q = ((((3) * mn(p, 2, 0, 0, 1, 1, 0, 0) + (3) * mn(p, 1, 1, 0, 2, 0, 0, 0)) + ((-3) * mn(p, 1, 1, 0, 0, 0, 2, 0) + ((-6) * mn(p, 1, 0, 1, 0, 1, 1, 0) + (1) * mn(p, 0, 2, 0, 0, 1, 1, 0)))) + (((-6) * mn(p, 0, 1, 1, 1, 0, 1, 0) + (1) * mn(p, 0, 1, 1, 0, 2, 0, 0)) + ((3) * mn(p, 0, 1, 1, 0, 0, 2, 1) + ((-3) * mn(p, 0, 0, 2, 1, 1, 0, 0) + (3) * mn(p, 0, 0, 2, 0, 1, 1, 1)))));
    lemma_mul_is_distributive_add_other_way(q, cc0, c1);
    lemma_mul_is_distributive_add_other_way(q, cc1, c2);
    acb_prod12_c0(p);
    assert(c0 * q == ((((((((27) * mn(p, 6, 0, 0, 2, 3, 1, 0) + (108) * mn(p, 5, 1, 0, 3, 2, 1, 0)) + ((9) * mn(p, 5, 1, 0, 2, 4, 0, 0) + (-27) * mn(p, 5, 1, 0, 2, 2, 2, 1))) + (((-54) * mn(p, 5, 1, 0, 1, 2, 3, 0) + (54) * mn(p, 5, 0, 1, 3, 3, 0, 0)) + ((-54) * mn(p, 5, 0, 1, 2, 3, 1, 1) + (-108) * mn(p, 5, 0, 1, 1, 3, 2, 0)))) + ((((135) * mn(p, 4, 2, 0, 4, 1, 1, 0) + (27) * mn(p, 4, 2, 0, 3, 3, 0, 0)) + ((-54) * mn(p, 4, 2, 0, 3, 1, 2, 1) + (-162) * mn(p, 4, 2, 0, 2, 1, 3, 0))) + (((54) * mn(p, 4, 2, 0, 1, 1, 4, 1) + (27) * mn(p, 4, 2, 0, 0, 1, 5, 0)) + ((135) * mn(p, 4, 1, 1, 4, 2, 0, 0) + ((-162) * mn(p, 4, 1, 1, 3, 2, 1, 1) + (-459) * mn(p, 4, 1, 1, 2, 2, 2, 0)))))) + (((((-18) * mn(p, 4, 1, 1, 1, 4, 1, 0) + (270) * mn(p, 4, 1, 1, 1, 2, 3, 1)) + ((108) * mn(p, 4, 1, 1, 0, 2, 4, 0) + (-27) * mn(p, 4, 0, 2, 3, 3, 0, 1))) + (((-189) * mn(p, 4, 0, 2, 2, 3, 1, 0) + (270) * mn(p, 4, 0, 2, 1, 3, 2, 1)) + ((108) * mn(p, 4, 0, 2, 0, 3, 3, 0) + ((54) * mn(p, 3, 3, 0, 5, 0, 1, 0) + (27) * mn(p, 3, 3, 0, 4, 2, 0, 0))))) + ((((-27) * mn(p, 3, 3, 0, 4, 0, 2, 1) + (-108) * mn(p, 3, 3, 0, 3, 0, 3, 0)) + ((18) * mn(p, 3, 3, 0, 2, 2, 2, 0) + (54) * mn(p, 3, 3, 0, 2, 0, 4, 1))) + (((6) * mn(p, 3, 3, 0, 1, 4, 1, 0) + (-18) * mn(p, 3, 3, 0, 1, 2, 3, 1)) + ((54) * mn(p, 3, 3, 0, 1, 0, 5, 0) + ((-9) * mn(p, 3, 3, 0, 0, 2, 4, 0) + (-27) * mn(p, 3, 3, 0, 0, 0, 6, 1))))))) + ((((((108) * mn(p, 3, 2, 1, 5, 1, 0, 0) + (-162) * mn(p, 3, 2, 1, 4, 1, 1, 1)) + ((-540) * mn(p, 3, 2, 1, 3, 1, 2, 0) + (-18) * mn(p, 3, 2, 1, 2, 3, 1, 0))) + (((594) * mn(p, 3, 2, 1, 2, 1, 3, 1) + (6) * mn(p, 3, 2, 1, 1, 5, 0, 0)) + ((-36) * mn(p, 3, 2, 1, 1, 3, 2, 1) + ((-54) * mn(p, 3, 2, 1, 1, 1, 4, 2) + (297) * mn(p, 3, 2, 1, 1, 1, 4, 0))))) + ((((-18) * mn(p, 3, 2, 1, 0, 3, 3, 0) + (-216) * mn(p, 3, 2, 1, 0, 1, 5, 1)) + ((-27) * mn(p, 3, 1, 2, 4, 2, 0, 1) + (-405) * mn(p, 3, 1, 2, 3, 2, 1, 0))) + (((9) * mn(p, 3, 1, 2, 2, 4, 0, 0) + (648) * mn(p, 3, 1, 2, 2, 2, 2, 1)) + ((-9) * mn(p, 3, 1, 2, 1, 4, 1, 1) + ((-81) * mn(p, 3, 1, 2, 1, 2, 3, 2) + (459) * mn(p, 3, 1, 2, 1, 2, 3, 0)))))) + (((((-486) * mn(p, 3, 1, 2, 0, 2, 4, 1) + (-54) * mn(p, 3, 0, 3, 3, 3, 0, 0)) + ((162) * mn(p, 3, 0, 3, 2, 3, 1, 1) + (-54) * mn(p, 3, 0, 3, 1, 3, 2, 2))) + (((162) * mn(p, 3, 0, 3, 1, 3, 2, 0) + (-324) * mn(p, 3, 0, 3, 0, 3, 3, 1)) + ((9) * mn(p, 2, 4, 0, 5, 1, 0, 0) + ((18) * mn(p, 2, 4, 0, 3, 1, 2, 0) + (9) * mn(p, 2, 4, 0, 2, 3, 1, 0))))) + ((((-18) * mn(p, 2, 4, 0, 2, 1, 3, 1) + (-27) * mn(p, 2, 4, 0, 1, 1, 4, 0)) + ((-3) * mn(p, 2, 4, 0, 0, 3, 3, 0) + (18) * mn(p, 2, 4, 0, 0, 1, 5, 1))) + (((27) * mn(p, 2, 3, 1, 6, 0, 0, 0) + (-54) * mn(p, 2, 3, 1, 5, 0, 1, 1)) + ((-189) * mn(p, 2, 3, 1, 4, 0, 2, 0) + ((-9) * mn(p, 2, 3, 1, 3, 2, 1, 0) + (324) * mn(p, 2, 3, 1, 3, 0, 3, 1)))))))) + (((((((9) * mn(p, 2, 3, 1, 2, 4, 0, 0) + (-45) * mn(p, 2, 3, 1, 2, 2, 2, 1)) + ((-54) * mn(p, 2, 3, 1, 2, 0, 4, 2) + (162) * mn(p, 2, 3, 1, 2, 0, 4, 0))) + (((-81) * mn(p, 2, 3, 1, 1, 2, 3, 0) + (-270) * mn(p, 2, 3, 1, 1, 0, 5, 1)) + ((-12) * mn(p, 2, 3, 1, 0, 4, 2, 0) + (90) * mn(p, 2, 3, 1, 0, 2, 4, 1)))) + ((((54) * mn(p, 2, 3, 1, 0, 0, 6, 2) + (-270) * mn(p, 2, 2, 2, 4, 1, 1, 0)) + ((9) * mn(p, 2, 2, 2, 3, 3, 0, 0) + (486) * mn(p, 2, 2, 2, 3, 1, 2, 1))) + (((-27) * mn(p, 2, 2, 2, 2, 3, 1, 1) + (-135) * mn(p, 2, 2, 2, 2, 1, 3, 2)) + ((432) * mn(p, 2, 2, 2, 2, 1, 3, 0) + ((-45) * mn(p, 2, 2, 2, 1, 3, 2, 0) + (-810) * mn(p, 2, 2, 2, 1, 1, 4, 1)))))) + (((((-9) * mn(p, 2, 2, 2, 0, 5, 1, 0) + (117) * mn(p, 2, 2, 2, 0, 3, 3, 1)) + ((216) * mn(p, 2, 2, 2, 0, 1, 5, 2) + (-81) * mn(p, 2, 1, 3, 4, 2, 0, 0))) + (((243) * mn(p, 2, 1, 3, 3, 2, 1, 1) + (-9) * mn(p, 2, 1, 3, 2, 4, 0, 1)) + ((-135) * mn(p, 2, 1, 3, 2, 2, 2, 2) + ((243) * mn(p, 2, 1, 3, 2, 2, 2, 0) + (-9) * mn(p, 2, 1, 3, 1, 4, 1, 0))))) + ((((-594) * mn(p, 2, 1, 3, 1, 2, 3, 1) + (36) * mn(p, 2, 1, 3, 0, 4, 2, 1)) + ((270) * mn(p, 2, 1, 3, 0, 2, 4, 2) + (27) * mn(p, 2, 0, 4, 3, 3, 0, 1))) + (((-27) * mn(p, 2, 0, 4, 2, 3, 1, 2) + (54) * mn(p, 2, 0, 4, 2, 3, 1, 0)) + ((-189) * mn(p, 2, 0, 4, 1, 3, 2, 1) + ((135) * mn(p, 2, 0, 4, 0, 3, 3, 2) + (3) * mn(p, 1, 5, 0, 3, 2, 1, 0))))))) + ((((((3) * mn(p, 1, 5, 0, 1, 2, 3, 0) + (1) * mn(p, 1, 5, 0, 0, 4, 2, 0)) + ((-3) * mn(p, 1, 5, 0, 0, 2, 4, 1) + (-9) * mn(p, 1, 4, 1, 4, 1, 1, 0))) + (((3) * mn(p, 1, 4, 1, 3, 3, 0, 0) + (-9) * mn(p, 1, 4, 1, 3, 1, 2, 1)) + ((-36) * mn(p, 1, 4, 1, 2, 1, 3, 0) + ((-3) * mn(p, 1, 4, 1, 1, 3, 2, 0) + (81) * mn(p, 1, 4, 1, 1, 1, 4, 1))))) + ((((2) * mn(p, 1, 4, 1, 0, 5, 1, 0) + (-6) * mn(p, 1, 4, 1, 0, 3, 3, 1)) + ((-18) * mn(p, 1, 4, 1, 0, 1, 5, 2) + (-54) * mn(p, 1, 3, 2, 5, 0, 1, 0))) + (((135) * mn(p, 1, 3, 2, 4, 0, 2, 1) + (-9) * mn(p, 1, 3, 2, 3, 2, 1, 1)) + ((-54) * mn(p, 1, 3, 2, 3, 0, 3, 2) + ((108) * mn(p, 1, 3, 2, 3, 0, 3, 0) + (-27) * mn(p, 1, 3, 2, 2, 2, 2, 0)))))) + (((((-378) * mn(p, 1, 3, 2, 2, 0, 4, 1) + (-9) * mn(p, 1, 3, 2, 1, 4, 1, 0)) + ((108) * mn(p, 1, 3, 2, 1, 2, 3, 1) + (216) * mn(p, 1, 3, 2, 1, 0, 5, 2))) + (((1) * mn(p, 1, 3, 2, 0, 6, 0, 0) + (-36) * mn(p, 1, 3, 2, 0, 2, 4, 2)) + ((-27) * mn(p, 1, 3, 2, 0, 0, 6, 3) + ((-27) * mn(p, 1, 2, 3, 5, 1, 0, 0) + (81) * mn(p, 1, 2, 3, 4, 1, 1, 1))))) + ((((-54) * mn(p, 1, 2, 3, 3, 1, 2, 2) + (54) * mn(p, 1, 2, 3, 3, 1, 2, 0)) + ((-216) * mn(p, 1, 2, 3, 2, 1, 3, 1) + (-3) * mn(p, 1, 2, 3, 1, 5, 0, 0))) + (((18) * mn(p, 1, 2, 3, 1, 3, 2, 1) + (189) * mn(p, 1, 2, 3, 1, 1, 4, 2)) + ((3) * mn(p, 1, 2, 3, 0, 5, 1, 1) + ((-18) * mn(p, 1, 2, 3, 0, 3, 3, 2) + (-27) * mn(p, 1, 2, 3, 0, 1, 5, 3))))))))));
    acb_prod12_c1(p);
    assert(c1 * q == ((((((((-81) * mn(p, 3, 2, 1, 1, 1, 4, 0) + (-27) * mn(p, 3, 1, 2, 4, 2, 0, 1)) + ((-135) * mn(p, 3, 1, 2, 3, 2, 1, 0) + (9) * mn(p, 3, 1, 2, 2, 4, 0, 0))) + (((378) * mn(p, 3, 1, 2, 2, 2, 2, 1) + (-9) * mn(p, 3, 1, 2, 1, 4, 1, 1)) + ((-81) * mn(p, 3, 1, 2, 1, 2, 3, 2) + ((-243) * mn(p, 3, 1, 2, 1, 2, 3, 0) + (-54) * mn(p, 3, 0, 3, 3, 3, 0, 0))))) + ((((162) * mn(p, 3, 0, 3, 2, 3, 1, 1) + (-54) * mn(p, 3, 0, 3, 1, 3, 2, 2)) + ((-162) * mn(p, 3, 0, 3, 1, 3, 2, 0) + ((3) * mn(p, 2, 4, 0, 2, 3, 1, 0) + (-9) * mn(p, 2, 3, 1, 3, 2, 1, 0)))) + (((3) * mn(p, 2, 3, 1, 2, 4, 0, 0) + (-9) * mn(p, 2, 3, 1, 2, 2, 2, 1)) + ((-81) * mn(p, 2, 3, 1, 2, 0, 4, 0) + ((27) * mn(p, 2, 3, 1, 1, 2, 3, 0) + (81) * mn(p, 2, 3, 1, 0, 0, 6, 0)))))) + (((((-27) * mn(p, 2, 2, 2, 5, 1, 0, 1) + (-189) * mn(p, 2, 2, 2, 4, 1, 1, 0)) + ((9) * mn(p, 2, 2, 2, 3, 3, 0, 0) + ((540) * mn(p, 2, 2, 2, 3, 1, 2, 1) + (-27) * mn(p, 2, 2, 2, 2, 3, 1, 1)))) + (((-135) * mn(p, 2, 2, 2, 2, 1, 3, 2) + (-270) * mn(p, 2, 2, 2, 2, 1, 3, 0)) + ((45) * mn(p, 2, 2, 2, 1, 3, 2, 0) + ((-297) * mn(p, 2, 2, 2, 1, 1, 4, 1) + (9) * mn(p, 2, 2, 2, 0, 3, 3, 1))))) + ((((81) * mn(p, 2, 2, 2, 0, 1, 5, 2) + (405) * mn(p, 2, 2, 2, 0, 1, 5, 0)) + ((-81) * mn(p, 2, 1, 3, 4, 2, 0, 0) + ((351) * mn(p, 2, 1, 3, 3, 2, 1, 1) + (-9) * mn(p, 2, 1, 3, 2, 4, 0, 1)))) + (((-135) * mn(p, 2, 1, 3, 2, 2, 2, 2) + (-81) * mn(p, 2, 1, 3, 2, 2, 2, 0)) + ((9) * mn(p, 2, 1, 3, 1, 4, 1, 0) + ((-756) * mn(p, 2, 1, 3, 1, 2, 3, 1) + (18) * mn(p, 2, 1, 3, 0, 4, 2, 1))))))) + ((((((216) * mn(p, 2, 1, 3, 0, 2, 4, 2) + (648) * mn(p, 2, 1, 3, 0, 2, 4, 0)) + ((27) * mn(p, 2, 0, 4, 3, 3, 0, 1) + ((108) * mn(p, 2, 0, 4, 2, 3, 1, 0) + (-324) * mn(p, 2, 0, 4, 1, 3, 2, 1)))) + (((108) * mn(p, 2, 0, 4, 0, 3, 3, 2) + (324) * mn(p, 2, 0, 4, 0, 3, 3, 0)) + ((3) * mn(p, 1, 5, 0, 3, 2, 1, 0) + ((-3) * mn(p, 1, 5, 0, 1, 2, 3, 0) + (-9) * mn(p, 1, 4, 1, 4, 1, 1, 0))))) + ((((3) * mn(p, 1, 4, 1, 3, 3, 0, 0) + (-9) * mn(p, 1, 4, 1, 3, 1, 2, 1)) + ((36) * mn(p, 1, 4, 1, 2, 1, 3, 0) + ((-9) * mn(p, 1, 4, 1, 1, 3, 2, 0) + (9) * mn(p, 1, 4, 1, 1, 1, 4, 1)))) + (((-54) * mn(p, 1, 4, 1, 0, 1, 5, 0) + (-54) * mn(p, 1, 3, 2, 5, 0, 1, 0)) + ((135) * mn(p, 1, 3, 2, 4, 0, 2, 1) + ((-27) * mn(p, 1, 3, 2, 3, 2, 1, 1) + (-54) * mn(p, 1, 3, 2, 3, 0, 3, 2)))))) + (((((-108) * mn(p, 1, 3, 2, 3, 0, 3, 0) + (27) * mn(p, 1, 3, 2, 2, 2, 2, 0)) + ((-54) * mn(p, 1, 3, 2, 2, 0, 4, 1) + ((-3) * mn(p, 1, 3, 2, 1, 4, 1, 0) + (162) * mn(p, 1, 3, 2, 1, 2, 3, 1)))) + (((54) * mn(p, 1, 3, 2, 1, 0, 5, 2) + (324) * mn(p, 1, 3, 2, 1, 0, 5, 0)) + ((-3) * mn(p, 1, 3, 2, 0, 4, 2, 1) + ((-27) * mn(p, 1, 3, 2, 0, 2, 4, 2) + (-216) * mn(p, 1, 3, 2, 0, 2, 4, 0))))) + ((((-162) * mn(p, 1, 3, 2, 0, 0, 6, 1) + (-27) * mn(p, 1, 2, 3, 5, 1, 0, 0)) + ((189) * mn(p, 1, 2, 3, 4, 1, 1, 1) + ((-18) * mn(p, 1, 2, 3, 3, 3, 0, 1) + (-108) * mn(p, 1, 2, 3, 3, 1, 2, 2)))) + (((162) * mn(p, 1, 2, 3, 3, 1, 2, 0) + (-54) * mn(p, 1, 2, 3, 2, 3, 1, 0)) + ((-1134) * mn(p, 1, 2, 3, 2, 1, 3, 1) + ((3) * mn(p, 1, 2, 3, 1, 5, 0, 0) + (252) * mn(p, 1, 2, 3, 1, 3, 2, 1)))))))) + (((((((729) * mn(p, 1, 2, 3, 1, 1, 4, 2) + (1134) * mn(p, 1, 2, 3, 1, 1, 4, 0)) + ((-3) * mn(p, 1, 2, 3, 0, 5, 1, 1) + (-54) * mn(p, 1, 2, 3, 0, 3, 3, 2))) + (((-270) * mn(p, 1, 2, 3, 0, 3, 3, 0) + (-81) * mn(p, 1, 2, 3, 0, 1, 5, 3)) + ((-648) * mn(p, 1, 2, 3, 0, 1, 5, 1) + ((54) * mn(p, 1, 1, 4, 4, 2, 0, 1) + (-27) * mn(p, 1, 1, 4, 3, 2, 1, 2))))) + ((((297) * mn(p, 1, 1, 4, 3, 2, 1, 0) + (-27) * mn(p, 1, 1, 4, 2, 4, 0, 0)) + ((-1188) * mn(p, 1, 1, 4, 2, 2, 2, 1) + ((90) * mn(p, 1, 1, 4, 1, 4, 1, 1) + (891) * mn(p, 1, 1, 4, 1, 2, 3, 2)))) + (((1053) * mn(p, 1, 1, 4, 1, 2, 3, 0) + (-27) * mn(p, 1, 1, 4, 0, 4, 2, 2)) + ((-108) * mn(p, 1, 1, 4, 0, 4, 2, 0) + ((-135) * mn(p, 1, 1, 4, 0, 2, 4, 3) + (-729) * mn(p, 1, 1, 4, 0, 2, 4, 1)))))) + (((((54) * mn(p, 1, 0, 5, 3, 3, 0, 0) + (-270) * mn(p, 1, 0, 5, 2, 3, 1, 1)) + ((216) * mn(p, 1, 0, 5, 1, 3, 2, 2) + ((162) * mn(p, 1, 0, 5, 1, 3, 2, 0) + (-54) * mn(p, 1, 0, 5, 0, 3, 3, 3)))) + (((-162) * mn(p, 1, 0, 5, 0, 3, 3, 1) + (1) * mn(p, 0, 6, 0, 1, 3, 2, 0)) + ((-9) * mn(p, 0, 5, 1, 2, 2, 2, 0) + ((2) * mn(p, 0, 5, 1, 1, 4, 1, 0) + (9) * mn(p, 0, 5, 1, 0, 2, 4, 0))))) + ((((-12) * mn(p, 0, 4, 2, 2, 3, 1, 0) + (54) * mn(p, 0, 4, 2, 2, 1, 3, 1)) + ((1) * mn(p, 0, 4, 2, 1, 5, 0, 0) + ((-3) * mn(p, 0, 4, 2, 1, 3, 2, 1) + (-27) * mn(p, 0, 4, 2, 1, 1, 4, 2)))) + (((-108) * mn(p, 0, 4, 2, 1, 1, 4, 0) + (27) * mn(p, 0, 4, 2, 0, 3, 3, 0)) + ((54) * mn(p, 0, 4, 2, 0, 1, 5, 1) + ((108) * mn(p, 0, 3, 3, 4, 0, 2, 0) + (-18) * mn(p, 0, 3, 3, 3, 2, 1, 0))))))) + ((((((-324) * mn(p, 0, 3, 3, 3, 0, 3, 1) + (-3) * mn(p, 0, 3, 3, 2, 4, 0, 0)) + ((126) * mn(p, 0, 3, 3, 2, 2, 2, 1) + ((243) * mn(p, 0, 3, 3, 2, 0, 4, 2) + (324) * mn(p, 0, 3, 3, 2, 0, 4, 0)))) + (((-6) * mn(p, 0, 3, 3, 1, 4, 1, 1) + (-72) * mn(p, 0, 3, 3, 1, 2, 3, 2)) + ((-270) * mn(p, 0, 3, 3, 1, 2, 3, 0) + ((-54) * mn(p, 0, 3, 3, 1, 0, 5, 3) + (-324) * mn(p, 0, 3, 3, 1, 0, 5, 1))))) + ((((27) * mn(p, 0, 3, 3, 0, 4, 2, 0) + (162) * mn(p, 0, 3, 3, 0, 2, 4, 1)) + ((81) * mn(p, 0, 3, 3, 0, 0, 6, 2) + ((108) * mn(p, 0, 2, 4, 4, 1, 1, 0) + (-9) * mn(p, 0, 2, 4, 3, 3, 0, 0)))) + (((-486) * mn(p, 0, 2, 4, 3, 1, 2, 1) + (90) * mn(p, 0, 2, 4, 2, 3, 1, 1)) + ((486) * mn(p, 0, 2, 4, 2, 1, 3, 2) + ((648) * mn(p, 0, 2, 4, 2, 1, 3, 0) + (-3) * mn(p, 0, 2, 4, 1, 5, 0, 1)))))) + (((((-54) * mn(p, 0, 2, 4, 1, 3, 2, 2) + (-189) * mn(p, 0, 2, 4, 1, 3, 2, 0)) + ((-135) * mn(p, 0, 2, 4, 1, 1, 4, 3) + ((-810) * mn(p, 0, 2, 4, 1, 1, 4, 1) + (9) * mn(p, 0, 2, 4, 0, 5, 1, 0)))) + (((135) * mn(p, 0, 2, 4, 0, 3, 3, 1) + (243) * mn(p, 0, 2, 4, 0, 1, 5, 2)) + ((27) * mn(p, 0, 1, 5, 4, 2, 0, 0) + ((-216) * mn(p, 0, 1, 5, 3, 2, 1, 1) + (18) * mn(p, 0, 1, 5, 2, 4, 0, 1))))) + ((((243) * mn(p, 0, 1, 5, 2, 2, 2, 2) + (243) * mn(p, 0, 1, 5, 2, 2, 2, 0)) + ((-9) * mn(p, 0, 1, 5, 1, 4, 1, 2) + ((-27) * mn(p, 0, 1, 5, 1, 4, 1, 0) + (-81) * mn(p, 0, 1, 5, 1, 2, 3, 3)))) + (((-405) * mn(p, 0, 1, 5, 1, 2, 3, 1) + (27) * mn(p, 0, 1, 5, 0, 4, 2, 1)) + ((162) * mn(p, 0, 1, 5, 0, 2, 4, 2) + ((-27) * mn(p, 0, 0, 6, 3, 3, 0, 1) + (27) * mn(p, 0, 0, 6, 2, 3, 1, 2))))))))));
    acb_prod12_c2(p);
    assert(c2 * q == (((((-27) * mn(p, 2, 0, 4, 2, 3, 1, 2) + ((-81) * mn(p, 2, 0, 4, 2, 3, 1, 0) + (81) * mn(p, 2, 0, 4, 1, 3, 2, 1))) + (((-27) * mn(p, 1, 1, 4, 3, 2, 1, 2) + (-81) * mn(p, 1, 1, 4, 3, 2, 1, 0)) + ((81) * mn(p, 1, 1, 4, 2, 2, 2, 1) + (27) * mn(p, 1, 1, 4, 1, 2, 3, 2)))) + (((81) * mn(p, 1, 1, 4, 1, 2, 3, 0) + ((-81) * mn(p, 1, 1, 4, 0, 2, 4, 1) + (54) * mn(p, 1, 0, 5, 1, 3, 2, 2))) + (((162) * mn(p, 1, 0, 5, 1, 3, 2, 0) + (-162) * mn(p, 1, 0, 5, 0, 3, 3, 1)) + ((-9) * mn(p, 0, 2, 4, 1, 3, 2, 2) + (-27) * mn(p, 0, 2, 4, 1, 3, 2, 0))))) + ((((27) * mn(p, 0, 2, 4, 0, 3, 3, 1) + ((54) * mn(p, 0, 1, 5, 2, 2, 2, 2) + (162) * mn(p, 0, 1, 5, 2, 2, 2, 0))) + (((-9) * mn(p, 0, 1, 5, 1, 4, 1, 2) + (-27) * mn(p, 0, 1, 5, 1, 4, 1, 0)) + ((-27) * mn(p, 0, 1, 5, 1, 2, 3, 3) + (-243) * mn(p, 0, 1, 5, 1, 2, 3, 1)))) + (((27) * mn(p, 0, 1, 5, 0, 4, 2, 1) + ((81) * mn(p, 0, 1, 5, 0, 2, 4, 2) + (27) * mn(p, 0, 0, 6, 2, 3, 1, 2))) + (((81) * mn(p, 0, 0, 6, 2, 3, 1, 0) + (-27) * mn(p, 0, 0, 6, 1, 3, 2, 3)) + ((-162) * mn(p, 0, 0, 6, 1, 3, 2, 1) + (81) * mn(p, 0, 0, 6, 0, 3, 3, 2)))))));
    assert(cc2 * q == ((((((((27) * mn(p, 6, 0, 0, 2, 3, 1, 0) + ((108) * mn(p, 5, 1, 0, 3, 2, 1, 0) + (9) * mn(p, 5, 1, 0, 2, 4, 0, 0))) + (((-27) * mn(p, 5, 1, 0, 2, 2, 2, 1) + (-54) * mn(p, 5, 1, 0, 1, 2, 3, 0)) + ((54) * mn(p, 5, 0, 1, 3, 3, 0, 0) + (-54) * mn(p, 5, 0, 1, 2, 3, 1, 1)))) + (((-108) * mn(p, 5, 0, 1, 1, 3, 2, 0) + ((135) * mn(p, 4, 2, 0, 4, 1, 1, 0) + (27) * mn(p, 4, 2, 0, 3, 3, 0, 0))) + (((-54) * mn(p, 4, 2, 0, 3, 1, 2, 1) + (-162) * mn(p, 4, 2, 0, 2, 1, 3, 0)) + ((54) * mn(p, 4, 2, 0, 1, 1, 4, 1) + (27) * mn(p, 4, 2, 0, 0, 1, 5, 0))))) + ((((135) * mn(p, 4, 1, 1, 4, 2, 0, 0) + ((-162) * mn(p, 4, 1, 1, 3, 2, 1, 1) + (-459) * mn(p, 4, 1, 1, 2, 2, 2, 0))) + (((-18) * mn(p, 4, 1, 1, 1, 4, 1, 0) + (270) * mn(p, 4, 1, 1, 1, 2, 3, 1)) + ((108) * mn(p, 4, 1, 1, 0, 2, 4, 0) + (-27) * mn(p, 4, 0, 2, 3, 3, 0, 1)))) + (((-189) * mn(p, 4, 0, 2, 2, 3, 1, 0) + ((270) * mn(p, 4, 0, 2, 1, 3, 2, 1) + (108) * mn(p, 4, 0, 2, 0, 3, 3, 0))) + (((54) * mn(p, 3, 3, 0, 5, 0, 1, 0) + (27) * mn(p, 3, 3, 0, 4, 2, 0, 0)) + ((-27) * mn(p, 3, 3, 0, 4, 0, 2, 1) + (-108) * mn(p, 3, 3, 0, 3, 0, 3, 0)))))) + (((((18) * mn(p, 3, 3, 0, 2, 2, 2, 0) + ((54) * mn(p, 3, 3, 0, 2, 0, 4, 1) + (6) * mn(p, 3, 3, 0, 1, 4, 1, 0))) + (((-18) * mn(p, 3, 3, 0, 1, 2, 3, 1) + (54) * mn(p, 3, 3, 0, 1, 0, 5, 0)) + ((-9) * mn(p, 3, 3, 0, 0, 2, 4, 0) + (-27) * mn(p, 3, 3, 0, 0, 0, 6, 1)))) + (((108) * mn(p, 3, 2, 1, 5, 1, 0, 0) + ((-162) * mn(p, 3, 2, 1, 4, 1, 1, 1) + (-540) * mn(p, 3, 2, 1, 3, 1, 2, 0))) + (((-18) * mn(p, 3, 2, 1, 2, 3, 1, 0) + (594) * mn(p, 3, 2, 1, 2, 1, 3, 1)) + ((6) * mn(p, 3, 2, 1, 1, 5, 0, 0) + (-36) * mn(p, 3, 2, 1, 1, 3, 2, 1))))) + ((((-54) * mn(p, 3, 2, 1, 1, 1, 4, 2) + ((216) * mn(p, 3, 2, 1, 1, 1, 4, 0) + (-18) * mn(p, 3, 2, 1, 0, 3, 3, 0))) + (((-216) * mn(p, 3, 2, 1, 0, 1, 5, 1) + (-54) * mn(p, 3, 1, 2, 4, 2, 0, 1)) + ((-540) * mn(p, 3, 1, 2, 3, 2, 1, 0) + (18) * mn(p, 3, 1, 2, 2, 4, 0, 0)))) + (((1026) * mn(p, 3, 1, 2, 2, 2, 2, 1) + ((-18) * mn(p, 3, 1, 2, 1, 4, 1, 1) + (-162) * mn(p, 3, 1, 2, 1, 2, 3, 2))) + (((216) * mn(p, 3, 1, 2, 1, 2, 3, 0) + (-486) * mn(p, 3, 1, 2, 0, 2, 4, 1)) + ((-108) * mn(p, 3, 0, 3, 3, 3, 0, 0) + (324) * mn(p, 3, 0, 3, 2, 3, 1, 1))))))) + ((((((-108) * mn(p, 3, 0, 3, 1, 3, 2, 2) + ((-324) * mn(p, 3, 0, 3, 0, 3, 3, 1) + (9) * mn(p, 2, 4, 0, 5, 1, 0, 0))) + (((18) * mn(p, 2, 4, 0, 3, 1, 2, 0) + (12) * mn(p, 2, 4, 0, 2, 3, 1, 0)) + ((-18) * mn(p, 2, 4, 0, 2, 1, 3, 1) + (-27) * mn(p, 2, 4, 0, 1, 1, 4, 0)))) + (((-3) * mn(p, 2, 4, 0, 0, 3, 3, 0) + ((18) * mn(p, 2, 4, 0, 0, 1, 5, 1) + (27) * mn(p, 2, 3, 1, 6, 0, 0, 0))) + (((-54) * mn(p, 2, 3, 1, 5, 0, 1, 1) + (-189) * mn(p, 2, 3, 1, 4, 0, 2, 0)) + ((-18) * mn(p, 2, 3, 1, 3, 2, 1, 0) + (324) * mn(p, 2, 3, 1, 3, 0, 3, 1))))) + ((((12) * mn(p, 2, 3, 1, 2, 4, 0, 0) + ((-54) * mn(p, 2, 3, 1, 2, 2, 2, 1) + (-54) * mn(p, 2, 3, 1, 2, 0, 4, 2))) + (((81) * mn(p, 2, 3, 1, 2, 0, 4, 0) + (-54) * mn(p, 2, 3, 1, 1, 2, 3, 0)) + ((-270) * mn(p, 2, 3, 1, 1, 0, 5, 1) + (-12) * mn(p, 2, 3, 1, 0, 4, 2, 0)))) + (((90) * mn(p, 2, 3, 1, 0, 2, 4, 1) + ((54) * mn(p, 2, 3, 1, 0, 0, 6, 2) + (81) * mn(p, 2, 3, 1, 0, 0, 6, 0))) + (((-27) * mn(p, 2, 2, 2, 5, 1, 0, 1) + (-459) * mn(p, 2, 2, 2, 4, 1, 1, 0)) + ((18) * mn(p, 2, 2, 2, 3, 3, 0, 0) + (1026) * mn(p, 2, 2, 2, 3, 1, 2, 1)))))) + (((((-54) * mn(p, 2, 2, 2, 2, 3, 1, 1) + ((-270) * mn(p, 2, 2, 2, 2, 1, 3, 2) + (162) * mn(p, 2, 2, 2, 2, 1, 3, 0))) + (((-1107) * mn(p, 2, 2, 2, 1, 1, 4, 1) + (-9) * mn(p, 2, 2, 2, 0, 5, 1, 0)) + ((126) * mn(p, 2, 2, 2, 0, 3, 3, 1) + (297) * mn(p, 2, 2, 2, 0, 1, 5, 2)))) + (((405) * mn(p, 2, 2, 2, 0, 1, 5, 0) + ((-162) * mn(p, 2, 1, 3, 4, 2, 0, 0) + (594) * mn(p, 2, 1, 3, 3, 2, 1, 1))) + (((-18) * mn(p, 2, 1, 3, 2, 4, 0, 1) + (-270) * mn(p, 2, 1, 3, 2, 2, 2, 2)) + ((162) * mn(p, 2, 1, 3, 2, 2, 2, 0) + (-1350) * mn(p, 2, 1, 3, 1, 2, 3, 1))))) + ((((54) * mn(p, 2, 1, 3, 0, 4, 2, 1) + ((486) * mn(p, 2, 1, 3, 0, 2, 4, 2) + (648) * mn(p, 2, 1, 3, 0, 2, 4, 0))) + (((54) * mn(p, 2, 0, 4, 3, 3, 0, 1) + (-54) * mn(p, 2, 0, 4, 2, 3, 1, 2)) + ((81) * mn(p, 2, 0, 4, 2, 3, 1, 0) + (-432) * mn(p, 2, 0, 4, 1, 3, 2, 1)))) + (((243) * mn(p, 2, 0, 4, 0, 3, 3, 2) + ((324) * mn(p, 2, 0, 4, 0, 3, 3, 0) + (6) * mn(p, 1, 5, 0, 3, 2, 1, 0))) + (((1) * mn(p, 1, 5, 0, 0, 4, 2, 0) + (-3) * mn(p, 1, 5, 0, 0, 2, 4, 1)) + ((-18) * mn(p, 1, 4, 1, 4, 1, 1, 0) + (6) * mn(p, 1, 4, 1, 3, 3, 0, 0)))))))) + (((((((-18) * mn(p, 1, 4, 1, 3, 1, 2, 1) + ((-12) * mn(p, 1, 4, 1, 1, 3, 2, 0) + (90) * mn(p, 1, 4, 1, 1, 1, 4, 1))) + (((2) * mn(p, 1, 4, 1, 0, 5, 1, 0) + (-6) * mn(p, 1, 4, 1, 0, 3, 3, 1)) + ((-18) * mn(p, 1, 4, 1, 0, 1, 5, 2) + (-54) * mn(p, 1, 4, 1, 0, 1, 5, 0)))) + (((-108) * mn(p, 1, 3, 2, 5, 0, 1, 0) + ((270) * mn(p, 1, 3, 2, 4, 0, 2, 1) + (-36) * mn(p, 1, 3, 2, 3, 2, 1, 1))) + (((-108) * mn(p, 1, 3, 2, 3, 0, 3, 2) + (-432) * mn(p, 1, 3, 2, 2, 0, 4, 1)) + ((-12) * mn(p, 1, 3, 2, 1, 4, 1, 0) + (270) * mn(p, 1, 3, 2, 1, 2, 3, 1))))) + ((((270) * mn(p, 1, 3, 2, 1, 0, 5, 2) + ((324) * mn(p, 1, 3, 2, 1, 0, 5, 0) + (1) * mn(p, 1, 3, 2, 0, 6, 0, 0))) + (((-3) * mn(p, 1, 3, 2, 0, 4, 2, 1) + (-63) * mn(p, 1, 3, 2, 0, 2, 4, 2)) + ((-216) * mn(p, 1, 3, 2, 0, 2, 4, 0) + (-27) * mn(p, 1, 3, 2, 0, 0, 6, 3)))) + (((-162) * mn(p, 1, 3, 2, 0, 0, 6, 1) + ((-54) * mn(p, 1, 2, 3, 5, 1, 0, 0) + (270) * mn(p, 1, 2, 3, 4, 1, 1, 1))) + (((-18) * mn(p, 1, 2, 3, 3, 3, 0, 1) + (-162) * mn(p, 1, 2, 3, 3, 1, 2, 2)) + ((216) * mn(p, 1, 2, 3, 3, 1, 2, 0) + (-54) * mn(p, 1, 2, 3, 2, 3, 1, 0)))))) + (((((-1350) * mn(p, 1, 2, 3, 2, 1, 3, 1) + ((270) * mn(p, 1, 2, 3, 1, 3, 2, 1) + (918) * mn(p, 1, 2, 3, 1, 1, 4, 2))) + (((1134) * mn(p, 1, 2, 3, 1, 1, 4, 0) + (-72) * mn(p, 1, 2, 3, 0, 3, 3, 2)) + ((-270) * mn(p, 1, 2, 3, 0, 3, 3, 0) + (-108) * mn(p, 1, 2, 3, 0, 1, 5, 3)))) + (((-648) * mn(p, 1, 2, 3, 0, 1, 5, 1) + ((54) * mn(p, 1, 1, 4, 4, 2, 0, 1) + (-54) * mn(p, 1, 1, 4, 3, 2, 1, 2))) + (((216) * mn(p, 1, 1, 4, 3, 2, 1, 0) + (-27) * mn(p, 1, 1, 4, 2, 4, 0, 0)) + ((-1107) * mn(p, 1, 1, 4, 2, 2, 2, 1) + (90) * mn(p, 1, 1, 4, 1, 4, 1, 1))))) + ((((918) * mn(p, 1, 1, 4, 1, 2, 3, 2) + ((1134) * mn(p, 1, 1, 4, 1, 2, 3, 0) + (-27) * mn(p, 1, 1, 4, 0, 4, 2, 2))) + (((-108) * mn(p, 1, 1, 4, 0, 4, 2, 0) + (-135) * mn(p, 1, 1, 4, 0, 2, 4, 3)) + ((-810) * mn(p, 1, 1, 4, 0, 2, 4, 1) + (54) * mn(p, 1, 0, 5, 3, 3, 0, 0)))) + (((-270) * mn(p, 1, 0, 5, 2, 3, 1, 1) + ((270) * mn(p, 1, 0, 5, 1, 3, 2, 2) + (324) * mn(p, 1, 0, 5, 1, 3, 2, 0))) + (((-54) * mn(p, 1, 0, 5, 0, 3, 3, 3) + (-324) * mn(p, 1, 0, 5, 0, 3, 3, 1)) + ((1) * mn(p, 0, 6, 0, 1, 3, 2, 0) + (-9) * mn(p, 0, 5, 1, 2, 2, 2, 0))))))) + ((((((2) * mn(p, 0, 5, 1, 1, 4, 1, 0) + ((9) * mn(p, 0, 5, 1, 0, 2, 4, 0) + (-12) * mn(p, 0, 4, 2, 2, 3, 1, 0))) + (((54) * mn(p, 0, 4, 2, 2, 1, 3, 1) + (1) * mn(p, 0, 4, 2, 1, 5, 0, 0)) + ((-3) * mn(p, 0, 4, 2, 1, 3, 2, 1) + (-27) * mn(p, 0, 4, 2, 1, 1, 4, 2)))) + (((-108) * mn(p, 0, 4, 2, 1, 1, 4, 0) + ((27) * mn(p, 0, 4, 2, 0, 3, 3, 0) + (54) * mn(p, 0, 4, 2, 0, 1, 5, 1))) + (((108) * mn(p, 0, 3, 3, 4, 0, 2, 0) + (-18) * mn(p, 0, 3, 3, 3, 2, 1, 0)) + ((-324) * mn(p, 0, 3, 3, 3, 0, 3, 1) + (-3) * mn(p, 0, 3, 3, 2, 4, 0, 0))))) + ((((126) * mn(p, 0, 3, 3, 2, 2, 2, 1) + ((243) * mn(p, 0, 3, 3, 2, 0, 4, 2) + (324) * mn(p, 0, 3, 3, 2, 0, 4, 0))) + (((-6) * mn(p, 0, 3, 3, 1, 4, 1, 1) + (-72) * mn(p, 0, 3, 3, 1, 2, 3, 2)) + ((-270) * mn(p, 0, 3, 3, 1, 2, 3, 0) + (-54) * mn(p, 0, 3, 3, 1, 0, 5, 3)))) + (((-324) * mn(p, 0, 3, 3, 1, 0, 5, 1) + ((27) * mn(p, 0, 3, 3, 0, 4, 2, 0) + (162) * mn(p, 0, 3, 3, 0, 2, 4, 1))) + (((81) * mn(p, 0, 3, 3, 0, 0, 6, 2) + (108) * mn(p, 0, 2, 4, 4, 1, 1, 0)) + ((-9) * mn(p, 0, 2, 4, 3, 3, 0, 0) + (-486) * mn(p, 0, 2, 4, 3, 1, 2, 1)))))) + (((((90) * mn(p, 0, 2, 4, 2, 3, 1, 1) + ((486) * mn(p, 0, 2, 4, 2, 1, 3, 2) + (648) * mn(p, 0, 2, 4, 2, 1, 3, 0))) + (((-3) * mn(p, 0, 2, 4, 1, 5, 0, 1) + (-63) * mn(p, 0, 2, 4, 1, 3, 2, 2)) + ((-216) * mn(p, 0, 2, 4, 1, 3, 2, 0) + (-135) * mn(p, 0, 2, 4, 1, 1, 4, 3)))) + (((-810) * mn(p, 0, 2, 4, 1, 1, 4, 1) + ((9) * mn(p, 0, 2, 4, 0, 5, 1, 0) + (162) * mn(p, 0, 2, 4, 0, 3, 3, 1))) + (((243) * mn(p, 0, 2, 4, 0, 1, 5, 2) + (27) * mn(p, 0, 1, 5, 4, 2, 0, 0)) + ((-216) * mn(p, 0, 1, 5, 3, 2, 1, 1) + (18) * mn(p, 0, 1, 5, 2, 4, 0, 1))))) + ((((297) * mn(p, 0, 1, 5, 2, 2, 2, 2) + ((405) * mn(p, 0, 1, 5, 2, 2, 2, 0) + (-18) * mn(p, 0, 1, 5, 1, 4, 1, 2))) + (((-54) * mn(p, 0, 1, 5, 1, 4, 1, 0) + (-108) * mn(p, 0, 1, 5, 1, 2, 3, 3)) + ((-648) * mn(p, 0, 1, 5, 1, 2, 3, 1) + (54) * mn(p, 0, 1, 5, 0, 4, 2, 1)))) + (((243) * mn(p, 0, 1, 5, 0, 2, 4, 2) + ((-27) * mn(p, 0, 0, 6, 3, 3, 0, 1) + (54) * mn(p, 0, 0, 6, 2, 3, 1, 2))) + (((81) * mn(p, 0, 0, 6, 2, 3, 1, 0) + (-27) * mn(p, 0, 0, 6, 1, 3, 2, 3)) + ((-162) * mn(p, 0, 0, 6, 1, 3, 2, 1) + (81) * mn(p, 0, 0, 6, 0, 3, 3, 2))))))))));
}

#[verifier::rlimit(100)]
proof fn acb_prod12_c0(p: Pt)
    ensures
        (((((((9) * mn(p, 4, 0, 0, 1, 2, 1, 0) + (27) * mn(p, 3, 1, 0, 2, 1, 1, 0)) + ((3) * mn(p, 3, 1, 0, 1, 3, 0, 0) + (-9) * mn(p, 3, 1, 0, 1, 1, 2, 1))) + (((-9) * mn(p, 3, 1, 0, 0, 1, 3, 0) + (18) * mn(p, 3, 0, 1, 2, 2, 0, 0)) + ((-18) * mn(p, 3, 0, 1, 1, 2, 1, 1) + (-18) * mn(p, 3, 0, 1, 0, 2, 2, 0)))) + ((((18) * mn(p, 2, 2, 0, 3, 0, 1, 0) + (6) * mn(p, 2, 2, 0, 2, 2, 0, 0)) + ((-9) * mn(p, 2, 2, 0, 2, 0, 2, 1) + (-18) * mn(p, 2, 2, 0, 1, 0, 3, 0))) + (((9) * mn(p, 2, 2, 0, 0, 0, 4, 1) + (27) * mn(p, 2, 1, 1, 3, 1, 0, 0)) + ((-36) * mn(p, 2, 1, 1, 2, 1, 1, 1) + (-45) * mn(p, 2, 1, 1, 1, 1, 2, 0))))) + (((((-3) * mn(p, 2, 1, 1, 0, 3, 1, 0) + (45) * mn(p, 2, 1, 1, 0, 1, 3, 1)) + ((-9) * mn(p, 2, 0, 2, 2, 2, 0, 1) + (-18) * mn(p, 2, 0, 2, 1, 2, 1, 0))) + (((45) * mn(p, 2, 0, 2, 0, 2, 2, 1) + (3) * mn(p, 1, 3, 0, 3, 1, 0, 0)) + ((3) * mn(p, 1, 3, 0, 1, 1, 2, 0) + (1) * mn(p, 1, 3, 0, 0, 3, 1, 0)))) + ((((-3) * mn(p, 1, 3, 0, 0, 1, 3, 1) + (9) * mn(p, 1, 2, 1, 4, 0, 0, 0)) + ((-18) * mn(p, 1, 2, 1, 3, 0, 1, 1) + (-18) * mn(p, 1, 2, 1, 2, 0, 2, 0))) + (((54) * mn(p, 1, 2, 1, 1, 0, 3, 1) + (1) * mn(p, 1, 2, 1, 0, 4, 0, 0)) + ((-6) * mn(p, 1, 2, 1, 0, 2, 2, 1) + (-9) * mn(p, 1, 2, 1, 0, 0, 4, 2))))))) * (((((3) * mn(p, 2, 0, 0, 1, 1, 0, 0) + (3) * mn(p, 1, 1, 0, 2, 0, 0, 0)) + ((-3) * mn(p, 1, 1, 0, 0, 0, 2, 0) + ((-6) * mn(p, 1, 0, 1, 0, 1, 1, 0) + (1) * mn(p, 0, 2, 0, 0, 1, 1, 0)))) + (((-6) * mn(p, 0, 1, 1, 1, 0, 1, 0) + (1) * mn(p, 0, 1, 1, 0, 2, 0, 0)) + ((3) * mn(p, 0, 1, 1, 0, 0, 2, 1) + ((-3) * mn(p, 0, 0, 2, 1, 1, 0, 0) + (3) * mn(p, 0, 0, 2, 0, 1, 1, 1)))))) == ((((((((27) * mn(p, 6, 0, 0, 2, 3, 1, 0) + (108) * mn(p, 5, 1, 0, 3, 2, 1, 0)) + ((9) * mn(p, 5, 1, 0, 2, 4, 0, 0) + (-27) * mn(p, 5, 1, 0, 2, 2, 2, 1))) + (((-54) * mn(p, 5, 1, 0, 1, 2, 3, 0) + (54) * mn(p, 5, 0, 1, 3, 3, 0, 0)) + ((-54) * mn(p, 5, 0, 1, 2, 3, 1, 1) + (-108) * mn(p, 5, 0, 1, 1, 3, 2, 0)))) + ((((135) * mn(p, 4, 2, 0, 4, 1, 1, 0) + (27) * mn(p, 4, 2, 0, 3, 3, 0, 0)) + ((-54) * mn(p, 4, 2, 0, 3, 1, 2, 1) + (-162) * mn(p, 4, 2, 0, 2, 1, 3, 0))) + (((54) * mn(p, 4, 2, 0, 1, 1, 4, 1) + (27) * mn(p, 4, 2, 0, 0, 1, 5, 0)) + ((135) * mn(p, 4, 1, 1, 4, 2, 0, 0) + ((-162) * mn(p, 4, 1, 1, 3, 2, 1, 1) + (-459) * mn(p, 4, 1, 1, 2, 2, 2, 0)))))) + (((((-18) * mn(p, 4, 1, 1, 1, 4, 1, 0) + (270) * mn(p, 4, 1, 1, 1, 2, 3, 1)) + ((108) * mn(p, 4, 1, 1, 0, 2, 4, 0) + (-27) * mn(p, 4, 0, 2, 3, 3, 0, 1))) + (((-189) * mn(p, 4, 0, 2, 2, 3, 1, 0) + (270) * mn(p, 4, 0, 2, 1, 3, 2, 1)) + ((108) * mn(p, 4, 0, 2, 0, 3, 3, 0) + ((54) * mn(p, 3, 3, 0, 5, 0, 1, 0) + (27) * mn(p, 3, 3, 0, 4, 2, 0, 0))))) + ((((-27) * mn(p, 3, 3, 0, 4, 0, 2, 1) + (-108) * mn(p, 3, 3, 0, 3, 0, 3, 0)) + ((18) * mn(p, 3, 3, 0, 2, 2, 2, 0) + (54) * mn(p, 3, 3, 0, 2, 0, 4, 1))) + (((6) * mn(p, 3, 3, 0, 1, 4, 1, 0) + (-18) * mn(p, 3, 3, 0, 1, 2, 3, 1)) + ((54) * mn(p, 3, 3, 0, 1, 0, 5, 0) + ((-9) * mn(p, 3, 3, 0, 0, 2, 4, 0) + (-27) * mn(p, 3, 3, 0, 0, 0, 6, 1))))))) + ((((((108) * mn(p, 3, 2, 1, 5, 1, 0, 0) + (-162) * mn(p, 3, 2, 1, 4, 1, 1, 1)) + ((-540) * mn(p, 3, 2, 1, 3, 1, 2, 0) + (-18) * mn(p, 3, 2, 1, 2, 3, 1, 0))) + (((594) * mn(p, 3, 2, 1, 2, 1, 3, 1) + (6) * mn(p, 3, 2, 1, 1, 5, 0, 0)) + ((-36) * mn(p, 3, 2, 1, 1, 3, 2, 1) + ((-54) * mn(p, 3, 2, 1, 1, 1, 4, 2) + (297) * mn(p, 3, 2, 1, 1, 1, 4, 0))))) + ((((-18) * mn(p, 3, 2, 1, 0, 3, 3, 0) + (-216) * mn(p, 3, 2, 1, 0, 1, 5, 1)) + ((-27) * mn(p, 3, 1, 2, 4, 2, 0, 1) + (-405) * mn(p, 3, 1, 2, 3, 2, 1, 0))) + (((9) * mn(p, 3, 1, 2, 2, 4, 0, 0) + (648) * mn(p, 3, 1, 2, 2, 2, 2, 1)) + ((-9) * mn(p, 3, 1, 2, 1, 4, 1, 1) + ((-81) * mn(p, 3, 1, 2, 1, 2, 3, 2) + (459) * mn(p, 3, 1, 2, 1, 2, 3, 0)))))) + (((((-486) * mn(p, 3, 1, 2, 0, 2, 4, 1) + (-54) * mn(p, 3, 0, 3, 3, 3, 0, 0)) + ((162) * mn(p, 3, 0, 3, 2, 3, 1, 1) + (-54) * mn(p, 3, 0, 3, 1, 3, 2, 2))) + (((162) * mn(p, 3, 0, 3, 1, 3, 2, 0) + (-324) * mn(p, 3, 0, 3, 0, 3, 3, 1)) + ((9) * mn(p, 2, 4, 0, 5, 1, 0, 0) + ((18) * mn(p, 2, 4, 0, 3, 1, 2, 0) + (9) * mn(p, 2, 4, 0, 2, 3, 1, 0))))) + ((((-18) * mn(p, 2, 4, 0, 2, 1, 3, 1) + (-27) * mn(p, 2, 4, 0, 1, 1, 4, 0)) + ((-3) * mn(p, 2, 4, 0, 0, 3, 3, 0) + (18) * mn(p, 2, 4, 0, 0, 1, 5, 1))) + (((27) * mn(p, 2, 3, 1, 6, 0, 0, 0) + (-54) * mn(p, 2, 3, 1, 5, 0, 1, 1)) + ((-189) * mn(p, 2, 3, 1, 4, 0, 2, 0) + ((-9) * mn(p, 2, 3, 1, 3, 2, 1, 0) + (324) * mn(p, 2, 3, 1, 3, 0, 3, 1)))))))) + (((((((9) * mn(p, 2, 3, 1, 2, 4, 0, 0) + (-45) * mn(p, 2, 3, 1, 2, 2, 2, 1)) + ((-54) * mn(p, 2, 3, 1, 2, 0, 4, 2) + (162) * mn(p, 2, 3, 1, 2, 0, 4, 0))) + (((-81) * mn(p, 2, 3, 1, 1, 2, 3, 0) + (-270) * mn(p, 2, 3, 1, 1, 0, 5, 1)) + ((-12) * mn(p, 2, 3, 1, 0, 4, 2, 0) + (90) * mn(p, 2, 3, 1, 0, 2, 4, 1)))) + ((((54) * mn(p, 2, 3, 1, 0, 0, 6, 2) + (-270) * mn(p, 2, 2, 2, 4, 1, 1, 0)) + ((9) * mn(p, 2, 2, 2, 3, 3, 0, 0) + (486) * mn(p, 2, 2, 2, 3, 1, 2, 1))) + (((-27) * mn(p, 2, 2, 2, 2, 3, 1, 1) + (-135) * mn(p, 2, 2, 2, 2, 1, 3, 2)) + ((432) * mn(p, 2, 2, 2, 2, 1, 3, 0) + ((-45) * mn(p, 2, 2, 2, 1, 3, 2, 0) + (-810) * mn(p, 2, 2, 2, 1, 1, 4, 1)))))) + (((((-9) * mn(p, 2, 2, 2, 0, 5, 1, 0) + (117) * mn(p, 2, 2, 2, 0, 3, 3, 1)) + ((216) * mn(p, 2, 2, 2, 0, 1, 5, 2) + (-81) * mn(p, 2, 1, 3, 4, 2, 0, 0))) + (((243) * mn(p, 2, 1, 3, 3, 2, 1, 1) + (-9) * mn(p, 2, 1, 3, 2, 4, 0, 1)) + ((-135) * mn(p, 2, 1, 3, 2, 2, 2, 2) + ((243) * mn(p, 2, 1, 3, 2, 2, 2, 0) + (-9) * mn(p, 2, 1, 3, 1, 4, 1, 0))))) + ((((-594) * mn(p, 2, 1, 3, 1, 2, 3, 1) + (36) * mn(p, 2, 1, 3, 0, 4, 2, 1)) + ((270) * mn(p, 2, 1, 3, 0, 2, 4, 2) + (27) * mn(p, 2, 0, 4, 3, 3, 0, 1))) + (((-27) * mn(p, 2, 0, 4, 2, 3, 1, 2) + (54) * mn(p, 2, 0, 4, 2, 3, 1, 0)) + ((-189) * mn(p, 2, 0, 4, 1, 3, 2, 1) + ((135) * mn(p, 2, 0, 4, 0, 3, 3, 2) + (3) * mn(p, 1, 5, 0, 3, 2, 1, 0))))))) + ((((((3) * mn(p, 1, 5, 0, 1, 2, 3, 0) + (1) * mn(p, 1, 5, 0, 0, 4, 2, 0)) + ((-3) * mn(p, 1, 5, 0, 0, 2, 4, 1) + (-9) * mn(p, 1, 4, 1, 4, 1, 1, 0))) + (((3) * mn(p, 1, 4, 1, 3, 3, 0, 0) + (-9) * mn(p, 1, 4, 1, 3, 1, 2, 1)) + ((-36) * mn(p, 1, 4, 1, 2, 1, 3, 0) + ((-3) * mn(p, 1, 4, 1, 1, 3, 2, 0) + (81) * mn(p, 1, 4, 1, 1, 1, 4, 1))))) + ((((2) * mn(p, 1, 4, 1, 0, 5, 1, 0) + (-6) * mn(p, 1, 4, 1, 0, 3, 3, 1)) + ((-18) * mn(p, 1, 4, 1, 0, 1, 5, 2) + (-54) * mn(p, 1, 3, 2, 5, 0, 1, 0))) + (((135) * mn(p, 1, 3, 2, 4, 0, 2, 1) + (-9) * mn(p, 1, 3, 2, 3, 2, 1, 1)) + ((-54) * mn(p, 1, 3, 2, 3, 0, 3, 2) + ((108) * mn(p, 1, 3, 2, 3, 0, 3, 0) + (-27) * mn(p, 1, 3, 2, 2, 2, 2, 0)))))) + (((((-378) * mn(p, 1, 3, 2, 2, 0, 4, 1) + (-9) * mn(p, 1, 3, 2, 1, 4, 1, 0)) + ((108) * mn(p, 1, 3, 2, 1, 2, 3, 1) + (216) * mn(p, 1, 3, 2, 1, 0, 5, 2))) + (((1) * mn(p, 1, 3, 2, 0, 6, 0, 0) + (-36) * mn(p, 1, 3, 2, 0, 2, 4, 2)) + ((-27) * mn(p, 1, 3, 2, 0, 0, 6, 3) + ((-27) * mn(p, 1, 2, 3, 5, 1, 0, 0) + (81) * mn(p, 1, 2, 3, 4, 1, 1, 1))))) + ((((-54) * mn(p, 1, 2, 3, 3, 1, 2, 2) + (54) * mn(p, 1, 2, 3, 3, 1, 2, 0)) + ((-216) * mn(p, 1, 2, 3, 2, 1, 3, 1) + (-3) * mn(p, 1, 2, 3, 1, 5, 0, 0))) + (((18) * mn(p, 1, 2, 3, 1, 3, 2, 1) + (189) * mn(p, 1, 2, 3, 1, 1, 4, 2)) + ((3) * mn(p, 1, 2, 3, 0, 5, 1, 1) + ((-18) * mn(p, 1, 2, 3, 0, 3, 3, 2) + (-27) * mn(p, 1, 2, 3, 0, 1, 5, 3))))))))),
{
    let t0 = (9) * mn(p, 4, 0, 0, 1, 2, 1, 0);
    let t1 = (27) * mn(p, 3, 1, 0, 2, 1, 1, 0);
    let t2 = (3) * mn(p, 3, 1, 0, 1, 3, 0, 0);
    let t3 = (-9) * mn(p, 3, 1, 0, 1, 1, 2, 1);
    let t4 = (-9) * mn(p, 3, 1, 0, 0, 1, 3, 0);
    let t5 = (18) * mn(p, 3, 0, 1, 2, 2, 0, 0);
    let t6 = (-18) * mn(p, 3, 0, 1, 1, 2, 1, 1);
    let t7 = (-18) * mn(p, 3, 0, 1, 0, 2, 2, 0);
    let t8 = (18) * mn(p, 2, 2, 0, 3, 0, 1, 0);
    let t9 = (6) * mn(p, 2, 2, 0, 2, 2, 0, 0);
    let t10 = (-9) * mn(p, 2, 2, 0, 2, 0, 2, 1);
    let t11 = (-18) * mn(p, 2, 2, 0, 1, 0, 3, 0);
    let t12 = (9) * mn(p, 2, 2, 0, 0, 0, 4, 1);
    let t13 = (27) * mn(p, 2, 1, 1, 3, 1, 0, 0);
    let t14 = (-36) * mn(p, 2, 1, 1, 2, 1, 1, 1);
    let t15 = (-45) * mn(p, 2, 1, 1, 1, 1, 2, 0);
    let t16 = (-3) * mn(p, 2, 1, 1, 0, 3, 1, 0);
    let t17 = (45) * mn(p, 2, 1, 1, 0, 1, 3, 1);
    let t18 = (-9) * mn(p, 2, 0, 2, 2, 2, 0, 1);
    let t19 = (-18) * mn(p, 2, 0, 2, 1, 2, 1, 0);
    let t20 = (45) * mn(p, 2, 0, 2, 0, 2, 2, 1);
    let t21 = (3) * mn(p, 1, 3, 0, 3, 1, 0, 0);
    let t22 = (3) * mn(p, 1, 3, 0, 1, 1, 2, 0);
    let t23 = (1) * mn(p, 1, 3, 0, 0, 3, 1, 0);
    let t24 = (-3) * mn(p, 1, 3, 0, 0, 1, 3, 1);
    let t25 = (9) * mn(p, 1, 2, 1, 4, 0, 0, 0);
    let t26 = (-18) * mn(p, 1, 2, 1, 3, 0, 1, 1);
    let t27 = (-18) * mn(p, 1, 2, 1, 2, 0, 2, 0);
    let t28 = (54) * mn(p, 1, 2, 1, 1, 0, 3, 1);
    let t29 = (1) * mn(p, 1, 2, 1, 0, 4, 0, 0);
    let t30 = (-6) * mn(p, 1, 2, 1, 0, 2, 2, 1);
    let t31 = (-9) * mn(p, 1, 2, 1, 0, 0, 4, 2);
    let s0 = (3) * mn(p, 2, 0, 0, 1, 1, 0, 0);
    let s1 = (3) * mn(p, 1, 1, 0, 2, 0, 0, 0);
    let s2 = (-3) * mn(p, 1, 1, 0, 0, 0, 2, 0);
    let s3 = (-6) * mn(p, 1, 0, 1, 0, 1, 1, 0);
    let s4 = (1) * mn(p, 0, 2, 0, 0, 1, 1, 0);
    let s5 = (-6) * mn(p, 0, 1, 1, 1, 0, 1, 0);
    let s6 = (1) * mn(p, 0, 1, 1, 0, 2, 0, 0);
    let s7 = (3) * mn(p, 0, 1, 1, 0, 0, 2, 1);
    let s8 = (-3) * mn(p, 0, 0, 2, 1, 1, 0, 0);
    let s9 = (3) * mn(p, 0, 0, 2, 0, 1, 1, 1);
    let pp0 = t0;
    let pp1 = pp0 + t1;
    let pp2 = pp1 + t2;
    let pp3 = pp2 + t3;
    let pp4 = pp3 + t4;
    let pp5 = pp4 + t5;
    let pp6 = pp5 + t6;
    let pp7 = pp6 + t7;
    let pp8 = pp7 + t8;
    let pp9 = pp8 + t9;
    let pp10 = pp9 + t10;
    let pp11 = pp10 + t11;
    let pp12 = pp11 + t12;
    let pp13 = pp12 + t13;
    let pp14 = pp13 + t14;
    let pp15 = pp14 + t15;
    let pp16 = pp15 + t16;
    let pp17 = pp16 + t17;
    let pp18 = pp17 + t18;
    let pp19 = pp18 + t19;
    let pp20 = pp19 + t20;
    let pp21 = pp20 + t21;
    let pp22 = pp21 + t22;
    let pp23 = pp22 + t23;
    let pp24 = pp23 + t24;
    let pp25 = pp24 + t25;
    let pp26 = pp25 + t26;
    let pp27 = pp26 + t27;
    let pp28 = pp27 + t28;
    let pp29 = pp28 + t29;
    let pp30 = pp29 + t30;
    let pp31 = pp30 + t31;
    let qq0 = s0;
    let qq1 = qq0 + s1;
    let qq2 = qq1 + s2;
    let qq3 = qq2 + s3;
    let qq4 = qq3 + s4;
    let qq5 = qq4 + s5;
    let qq6 = qq5 + s6;
    let qq7 = qq6 + s7;
    let qq8 = qq7 + s8;
    let qq9 = qq8 + s9;
    let q = qq9;
    lemma_mul_is_distributive_add_other_way(q, pp0, t1);
    lemma_mul_is_distributive_add_other_way(q, pp1, t2);
    lemma_mul_is_distributive_add_other_way(q, pp2, t3);
    lemma_mul_is_distributive_add_other_way(q, pp3, t4);
    lemma_mul_is_distributive_add_other_way(q, pp4, t5);
    lemma_mul_is_distributive_add_other_way(q, pp5, t6);
    lemma_mul_is_distributive_add_other_way(q, pp6, t7);
    lemma_mul_is_distributive_add_other_way(q, pp7, t8);
    lemma_mul_is_distributive_add_other_way(q, pp8, t9);
    lemma_mul_is_distributive_add_other_way(q, pp9, t10);
    lemma_mul_is_distributive_add_other_way(q, pp10, t11);
    lemma_mul_is_distributive_add_other_way(q, pp11, t12);
    lemma_mul_is_distributive_add_other_way(q, pp12, t13);
    lemma_mul_is_distributive_add_other_way(q, pp13, t14);
    lemma_mul_is_distributive_add_other_way(q, pp14, t15);
    lemma_mul_is_distributive_add_other_way(q, pp15, t16);
    lemma_mul_is_distributive_add_other_way(q, pp16, t17);
    lemma_mul_is_distributive_add_other_way(q, pp17, t18);
    lemma_mul_is_distributive_add_other_way(q, pp18, t19);
    lemma_mul_is_distributive_add_other_way(q, pp19, t20);
    lemma_mul_is_distributive_add_other_way(q, pp20, t21);
    lemma_mul_is_distributive_add_other_way(q, pp21, t22);
    lemma_mul_is_distributive_add_other_way(q, pp22, t23);
    lemma_mul_is_distributive_add_other_way(q, pp23, t24);
    lemma_mul_is_distributive_add_other_way(q, pp24, t25);
    lemma_mul_is_distributive_add_other_way(q, pp25, t26);
    lemma_mul_is_distributive_add_other_way(q, pp26, t27);
    lemma_mul_is_distributive_add_other_way(q, pp27, t28);
    lemma_mul_is_distributive_add_other_way(q, pp28, t29);
    lemma_mul_is_distributive_add_other_way(q, pp29, t30);
    lemma_mul_is_distributive_add_other_way(q, pp30, t31);
    lemma_mul_is_distributive_add(t0, qq0, s1);
    lemma_mul_is_distributive_add(t0, qq1, s2);
    lemma_mul_is_distributive_add(t0, qq2, s3);
    lemma_mul_is_distributive_add(t0, qq3, s4);
    lemma_mul_is_distributive_add(t0, qq4, s5);
    lemma_mul_is_distributive_add(t0, qq5, s6);
    lemma_mul_is_distributive_add(t0, qq6, s7);
    lemma_mul_is_distributive_add(t0, qq7, s8);
    lemma_mul_is_distributive_add(t0, qq8, s9);
    lemma_mul_is_distributive_add(t1, qq0, s1);
    lemma_mul_is_distributive_add(t1, qq1, s2);
    lemma_mul_is_distributive_add(t1, qq2, s3);
    lemma_mul_is_distributive_add(t1, qq3, s4);
    lemma_mul_is_distributive_add(t1, qq4, s5);
    lemma_mul_is_distributive_add(t1, qq5, s6);
    lemma_mul_is_distributive_add(t1, qq6, s7);
    lemma_mul_is_distributive_add(t1, qq7, s8);
    lemma_mul_is_distributive_add(t1, qq8, s9);
    lemma_mul_is_distributive_add(t2, qq0, s1);
    lemma_mul_is_distributive_add(t2, qq1, s2);
    lemma_mul_is_distributive_add(t2, qq2, s3);
    lemma_mul_is_distributive_add(t2, qq3, s4);
    lemma_mul_is_distributive_add(t2, qq4, s5);
    lemma_mul_is_distributive_add(t2, qq5, s6);
    lemma_mul_is_distributive_add(t2, qq6, s7);
    lemma_mul_is_distributive_add(t2, qq7, s8);
    lemma_mul_is_distributive_add(t2, qq8, s9);
    lemma_mul_is_distributive_add(t3, qq0, s1);
    lemma_mul_is_distributive_add(t3, qq1, s2);
    lemma_mul_is_distributive_add(t3, qq2, s3);
    lemma_mul_is_distributive_add(t3, qq3, s4);
    lemma_mul_is_distributive_add(t3, qq4, s5);
    lemma_mul_is_distributive_add(t3, qq5, s6);
    lemma_mul_is_distributive_add(t3, qq6, s7);
    lemma_mul_is_distributive_add(t3, qq7, s8);
    lemma_mul_is_distributive_add(t3, qq8, s9);
    lemma_mul_is_distributive_add(t4, qq0, s1);
    lemma_mul_is_distributive_add(t4, qq1, s2);
    lemma_mul_is_distributive_add(t4, qq2, s3);
    lemma_mul_is_distributive_add(t4, qq3, s4);
    lemma_mul_is_distributive_add(t4, qq4, s5);
    lemma_mul_is_distributive_add(t4, qq5, s6);
    lemma_mul_is_distributive_add(t4, qq6, s7);
    lemma_mul_is_distributive_add(t4, qq7, s8);
    lemma_mul_is_distributive_add(t4, qq8, s9);
    lemma_mul_is_distributive_add(t5, qq0, s1);
    lemma_mul_is_distributive_add(t5, qq1, s2);
    lemma_mul_is_distributive_add(t5, qq2, s3);
    lemma_mul_is_distributive_add(t5, qq3, s4);
    lemma_mul_is_distributive_add(t5, qq4, s5);
    lemma_mul_is_distributive_add(t5, qq5, s6);
    lemma_mul_is_distributive_add(t5, qq6, s7);
    lemma_mul_is_distributive_add(t5, qq7, s8);
    lemma_mul_is_distributive_add(t5, qq8, s9);
    lemma_mul_is_distributive_add(t6, qq0, s1);
    lemma_mul_is_distributive_add(t6, qq1, s2);
    lemma_mul_is_distributive_add(t6, qq2, s3);
    lemma_mul_is_distributive_add(t6, qq3, s4);
    lemma_mul_is_distributive_add(t6, qq4, s5);
    lemma_mul_is_distributive_add(t6, qq5, s6);
    lemma_mul_is_distributive_add(t6, qq6, s7);
    lemma_mul_is_distributive_add(t6, qq7, s8);
    lemma_mul_is_distributive_add(t6, qq8, s9);
    lemma_mul_is_distributive_add(t7, qq0, s1);
    lemma_mul_is_distributive_add(t7, qq1, s2);
    lemma_mul_is_distributive_add(t7, qq2, s3);
    lemma_mul_is_distributive_add(t7, qq3, s4);
    lemma_mul_is_distributive_add(t7, qq4, s5);
    lemma_mul_is_distributive_add(t7, qq5, s6);
    lemma_mul_is_distributive_add(t7, qq6, s7);
    lemma_mul_is_distributive_add(t7, qq7, s8);
    lemma_mul_is_distributive_add(t7, qq8, s9);
    lemma_mul_is_distributive_add(t8, qq0, s1);
    lemma_mul_is_distributive_add(t8, qq1, s2);
    lemma_mul_is_distributive_add(t8, qq2, s3);
    lemma_mul_is_distributive_add(t8, qq3, s4);
    lemma_mul_is_distributive_add(t8, qq4, s5);
    lemma_mul_is_distributive_add(t8, qq5, s6);
    lemma_mul_is_distributive_add(t8, qq6, s7);
    lemma_mul_is_distributive_add(t8, qq7, s8);
    lemma_mul_is_distributive_add(t8, qq8, s9);
    lemma_mul_is_distributive_add(t9, qq0, s1);
    lemma_mul_is_distributive_add(t9, qq1, s2);
    lemma_mul_is_distributive_add(t9, qq2, s3);
    lemma_mul_is_distributive_add(t9, qq3, s4);
    lemma_mul_is_distributive_add(t9, qq4, s5);
    lemma_mul_is_distributive_add(t9, qq5, s6);
    lemma_mul_is_distributive_add(t9, qq6, s7);
    lemma_mul_is_distributive_add(t9, qq7, s8);
    lemma_mul_is_distributive_add(t9, qq8, s9);
    lemma_mul_is_distributive_add(t10, qq0, s1);
    lemma_mul_is_distributive_add(t10, qq1, s2);
    lemma_mul_is_distributive_add(t10, qq2, s3);
    lemma_mul_is_distributive_add(t10, qq3, s4);
    lemma_mul_is_distributive_add(t10, qq4, s5);
    lemma_mul_is_distributive_add(t10, qq5, s6);
    lemma_mul_is_distributive_add(t10, qq6, s7);
    lemma_mul_is_distributive_add(t10, qq7, s8);
    lemma_mul_is_distributive_add(t10, qq8, s9);
    lemma_mul_is_distributive_add(t11, qq0, s1);
    lemma_mul_is_distributive_add(t11, qq1, s2);
    lemma_mul_is_distributive_add(t11, qq2, s3);
    lemma_mul_is_distributive_add(t11, qq3, s4);
    lemma_mul_is_distributive_add(t11, qq4, s5);
    lemma_mul_is_distributive_add(t11, qq5, s6);
    lemma_mul_is_distributive_add(t11, qq6, s7);
    lemma_mul_is_distributive_add(t11, qq7, s8);
    lemma_mul_is_distributive_add(t11, qq8, s9);
    lemma_mul_is_distributive_add(t12, qq0, s1);
    lemma_mul_is_distributive_add(t12, qq1, s2);
    lemma_mul_is_distributive_add(t12, qq2, s3);
    lemma_mul_is_distributive_add(t12, qq3, s4);
    lemma_mul_is_distributive_add(t12, qq4, s5);
    lemma_mul_is_distributive_add(t12, qq5, s6);
    lemma_mul_is_distributive_add(t12, qq6, s7);
    lemma_mul_is_distributive_add(t12, qq7, s8);
    lemma_mul_is_distributive_add(t12, qq8, s9);
    lemma_mul_is_distributive_add(t13, qq0, s1);
    lemma_mul_is_distributive_add(t13, qq1, s2);
    lemma_mul_is_distributive_add(t13, qq2, s3);
    lemma_mul_is_distributive_add(t13, qq3, s4);
    lemma_mul_is_distributive_add(t13, qq4, s5);
    lemma_mul_is_distributive_add(t13, qq5, s6);
    lemma_mul_is_distributive_add(t13, qq6, s7);
    lemma_mul_is_distributive_add(t13, qq7, s8);
    lemma_mul_is_distributive_add(t13, qq8, s9);
    lemma_mul_is_distributive_add(t14, qq0, s1);
    lemma_mul_is_distributive_add(t14, qq1, s2);
    lemma_mul_is_distributive_add(t14, qq2, s3);
    lemma_mul_is_distributive_add(t14, qq3, s4);
    lemma_mul_is_distributive_add(t14, qq4, s5);
    lemma_mul_is_distributive_add(t14, qq5, s6);
    lemma_mul_is_distributive_add(t14, qq6, s7);
    lemma_mul_is_distributive_add(t14, qq7, s8);
    lemma_mul_is_distributive_add(t14, qq8, s9);
    lemma_mul_is_distributive_add(t15, qq0, s1);
    lemma_mul_is_distributive_add(t15, qq1, s2);
    lemma_mul_is_distributive_add(t15, qq2, s3);
    lemma_mul_is_distributive_add(t15, qq3, s4);
    lemma_mul_is_distributive_add(t15, qq4, s5);
    lemma_mul_is_distributive_add(t15, qq5, s6);
    lemma_mul_is_distributive_add(t15, qq6, s7);
    lemma_mul_is_distributive_add(t15, qq7, s8);
    lemma_mul_is_distributive_add(t15, qq8, s9);
    lemma_mul_is_distributive_add(t16, qq0, s1);
    lemma_mul_is_distributive_add(t16, qq1, s2);
    lemma_mul_is_distributive_add(t16, qq2, s3);
    lemma_mul_is_distributive_add(t16, qq3, s4);
    lemma_mul_is_distributive_add(t16, qq4, s5);
    lemma_mul_is_distributive_add(t16, qq5, s6);
    lemma_mul_is_distributive_add(t16, qq6, s7);
    lemma_mul_is_distributive_add(t16, qq7, s8);
    lemma_mul_is_distributive_add(t16, qq8, s9);
    lemma_mul_is_distributive_add(t17, qq0, s1);
    lemma_mul_is_distributive_add(t17, qq1, s2);
    lemma_mul_is_distributive_add(t17, qq2, s3);
    lemma_mul_is_distributive_add(t17, qq3, s4);
    lemma_mul_is_distributive_add(t17, qq4, s5);
    lemma_mul_is_distributive_add(t17, qq5, s6);
    lemma_mul_is_distributive_add(t17, qq6, s7);
    lemma_mul_is_distributive_add(t17, qq7, s8);
    lemma_mul_is_distributive_add(t17, qq8, s9);
    lemma_mul_is_distributive_add(t18, qq0, s1);
    lemma_mul_is_distributive_add(t18, qq1, s2);
    lemma_mul_is_distributive_add(t18, qq2, s3);
    lemma_mul_is_distributive_add(t18, qq3, s4);
    lemma_mul_is_distributive_add(t18, qq4, s5);
    lemma_mul_is_distributive_add(t18, qq5, s6);
    lemma_mul_is_distributive_add(t18, qq6, s7);
    lemma_mul_is_distributive_add(t18, qq7, s8);
    lemma_mul_is_distributive_add(t18, qq8, s9);
    lemma_mul_is_distributive_add(t19, qq0, s1);
    lemma_mul_is_distributive_add(t19, qq1, s2);
    lemma_mul_is_distributive_add(t19, qq2, s3);
    lemma_mul_is_distributive_add(t19, qq3, s4);
    lemma_mul_is_distributive_add(t19, qq4, s5);
    lemma_mul_is_distributive_add(t19, qq5, s6);
    lemma_mul_is_distributive_add(t19, qq6, s7);
    lemma_mul_is_distributive_add(t19, qq7, s8);
    lemma_mul_is_distributive_add(t19, qq8, s9);
    lemma_mul_is_distributive_add(t20, qq0, s1);
    lemma_mul_is_distributive_add(t20, qq1, s2);
    lemma_mul_is_distributive_add(t20, qq2, s3);
    lemma_mul_is_distributive_add(t20, qq3, s4);
    lemma_mul_is_distributive_add(t20, qq4, s5);
    lemma_mul_is_distributive_add(t20, qq5, s6);
    lemma_mul_is_distributive_add(t20, qq6, s7);
    lemma_mul_is_distributive_add(t20, qq7, s8);
    lemma_mul_is_distributive_add(t20, qq8, s9);
    lemma_mul_is_distributive_add(t21, qq0, s1);
    lemma_mul_is_distributive_add(t21, qq1, s2);
    lemma_mul_is_distributive_add(t21, qq2, s3);
    lemma_mul_is_distributive_add(t21, qq3, s4);
    lemma_mul_is_distributive_add(t21, qq4, s5);
    lemma_mul_is_distributive_add(t21, qq5, s6);
    lemma_mul_is_distributive_add(t21, qq6, s7);
    lemma_mul_is_distributive_add(t21, qq7, s8);
    lemma_mul_is_distributive_add(t21, qq8, s9);
    lemma_mul_is_distributive_add(t22, qq0, s1);
    lemma_mul_is_distributive_add(t22, qq1, s2);
    lemma_mul_is_distributive_add(t22, qq2, s3);
    lemma_mul_is_distributive_add(t22, qq3, s4);
    lemma_mul_is_distributive_add(t22, qq4, s5);
    lemma_mul_is_distributive_add(t22, qq5, s6);
    lemma_mul_is_distributive_add(t22, qq6, s7);
    lemma_mul_is_distributive_add(t22, qq7, s8);
    lemma_mul_is_distributive_add(t22, qq8, s9);
    lemma_mul_is_distributive_add(t23, qq0, s1);
    lemma_mul_is_distributive_add(t23, qq1, s2);
    lemma_mul_is_distributive_add(t23, qq2, s3);
    lemma_mul_is_distributive_add(t23, qq3, s4);
    lemma_mul_is_distributive_add(t23, qq4, s5);
    lemma_mul_is_distributive_add(t23, qq5, s6);
    lemma_mul_is_distributive_add(t23, qq6, s7);
    lemma_mul_is_distributive_add(t23, qq7, s8);
    lemma_mul_is_distributive_add(t23, qq8, s9);
    lemma_mul_is_distributive_add(t24, qq0, s1);
    lemma_mul_is_distributive_add(t24, qq1, s2);
    lemma_mul_is_distributive_add(t24, qq2, s3);
    lemma_mul_is_distributive_add(t24, qq3, s4);
    lemma_mul_is_distributive_add(t24, qq4, s5);
    lemma_mul_is_distributive_add(t24, qq5, s6);
    lemma_mul_is_distributive_add(t24, qq6, s7);
    lemma_mul_is_distributive_add(t24, qq7, s8);
    lemma_mul_is_distributive_add(t24, qq8, s9);
    lemma_mul_is_distributive_add(t25, qq0, s1);
    lemma_mul_is_distributive_add(t25, qq1, s2);
    lemma_mul_is_distributive_add(t25, qq2, s3);
    lemma_mul_is_distributive_add(t25, qq3, s4);
    lemma_mul_is_distributive_add(t25, qq4, s5);
    lemma_mul_is_distributive_add(t25, qq5, s6);
    lemma_mul_is_distributive_add(t25, qq6, s7);
    lemma_mul_is_distributive_add(t25, qq7, s8);
    lemma_mul_is_distributive_add(t25, qq8, s9);
    lemma_mul_is_distributive_add(t26, qq0, s1);
    lemma_mul_is_distributive_add(t26, qq1, s2);
    lemma_mul_is_distributive_add(t26, qq2, s3);
    lemma_mul_is_distributive_add(t26, qq3, s4);
    lemma_mul_is_distributive_add(t26, qq4, s5);
    lemma_mul_is_distributive_add(t26, qq5, s6);
    lemma_mul_is_distributive_add(t26, qq6, s7);
    lemma_mul_is_distributive_add(t26, qq7, s8);
    lemma_mul_is_distributive_add(t26, qq8, s9);
    lemma_mul_is_distributive_add(t27, qq0, s1);
    lemma_mul_is_distributive_add(t27, qq1, s2);
    lemma_mul_is_distributive_add(t27, qq2, s3);
    lemma_mul_is_distributive_add(t27, qq3, s4);
    lemma_mul_is_distributive_add(t27, qq4, s5);
    lemma_mul_is_distributive_add(t27, qq5, s6);
    lemma_mul_is_distributive_add(t27, qq6, s7);
    lemma_mul_is_distributive_add(t27, qq7, s8);
    lemma_mul_is_distributive_add(t27, qq8, s9);
    lemma_mul_is_distributive_add(t28, qq0, s1);
    lemma_mul_is_distributive_add(t28, qq1, s2);
    lemma_mul_is_distributive_add(t28, qq2, s3);
    lemma_mul_is_distributive_add(t28, qq3, s4);
    lemma_mul_is_distributive_add(t28, qq4, s5);
    lemma_mul_is_distributive_add(t28, qq5, s6);
    lemma_mul_is_distributive_add(t28, qq6, s7);
    lemma_mul_is_distributive_add(t28, qq7, s8);
    lemma_mul_is_distributive_add(t28, qq8, s9);
    lemma_mul_is_distributive_add(t29, qq0, s1);
    lemma_mul_is_distributive_add(t29, qq1, s2);
    lemma_mul_is_distributive_add(t29, qq2, s3);
    lemma_mul_is_distributive_add(t29, qq3, s4);
    lemma_mul_is_distributive_add(t29, qq4, s5);
    lemma_mul_is_distributive_add(t29, qq5, s6);
    lemma_mul_is_distributive_add(t29, qq6, s7);
    lemma_mul_is_distributive_add(t29, qq7, s8);
    lemma_mul_is_distributive_add(t29, qq8, s9);
    lemma_mul_is_distributive_add(t30, qq0, s1);
    lemma_mul_is_distributive_add(t30, qq1, s2);
    lemma_mul_is_distributive_add(t30, qq2, s3);
    lemma_mul_is_distributive_add(t30, qq3, s4);
    lemma_mul_is_distributive_add(t30, qq4, s5);
    lemma_mul_is_distributive_add(t30, qq5, s6);
    lemma_mul_is_distributive_add(t30, qq6, s7);
    lemma_mul_is_distributive_add(t30, qq7, s8);
    lemma_mul_is_distributive_add(t30, qq8, s9);
    lemma_mul_is_distributive_add(t31, qq0, s1);
    lemma_mul_is_distributive_add(t31, qq1, s2);
    lemma_mul_is_distributive_add(t31, qq2, s3);
    lemma_mul_is_distributive_add(t31, qq3, s4);
    lemma_mul_is_distributive_add(t31, qq4, s5);
    lemma_mul_is_distributive_add(t31, qq5, s6);
    lemma_mul_is_distributive_add(t31, qq6, s7);
    lemma_mul_is_distributive_add(t31, qq7, s8);
    lemma_mul_is_distributive_add(t31, qq8, s9);
    lemma_tm(p, 9, 4, 0, 0, 1, 2, 1, 0, 3, 2, 0, 0, 1, 1, 0, 0);
    assert(t0 * s0 == (27) * mn(p, 6, 0, 0, 2, 3, 1, 0));
    lemma_tm(p, 9, 4, 0, 0, 1, 2, 1, 0, 3, 1, 1, 0, 2, 0, 0, 0);
    assert(t0 * s1 == (27) * mn(p, 5, 1, 0, 3, 2, 1, 0));
    lemma_tm(p, 9, 4, 0, 0, 1, 2, 1, 0, -3, 1, 1, 0, 0, 0, 2, 0);
    assert(t0 * s2 == (-27) * mn(p, 5, 1, 0, 1, 2, 3, 0));
    lemma_tm(p, 9, 4, 0, 0, 1, 2, 1, 0, -6, 1, 0, 1, 0, 1, 1, 0);
    assert(t0 * s3 == (-54) * mn(p, 5, 0, 1, 1, 3, 2, 0));
    lemma_tm(p, 9, 4, 0, 0, 1, 2, 1, 0, 1, 0, 2, 0, 0, 1, 1, 0);
    assert(t0 * s4 == (9) * mn(p, 4, 2, 0, 1, 3, 2, 0));
    lemma_tm(p, 9, 4, 0, 0, 1, 2, 1, 0, -6, 0, 1, 1, 1, 0, 1, 0);
    assert(t0 * s5 == (-54) * mn(p, 4, 1, 1, 2, 2, 2, 0));
    lemma_tm(p, 9, 4, 0, 0, 1, 2, 1, 0, 1, 0, 1, 1, 0, 2, 0, 0);
    assert(t0 * s6 == (9) * mn(p, 4, 1, 1, 1, 4, 1, 0));
    lemma_tm(p, 9, 4, 0, 0, 1, 2, 1, 0, 3, 0, 1, 1, 0, 0, 2, 1);
    assert(t0 * s7 == (27) * mn(p, 4, 1, 1, 1, 2, 3, 1));
    lemma_tm(p, 9, 4, 0, 0, 1, 2, 1, 0, -3, 0, 0, 2, 1, 1, 0, 0);
    assert(t0 * s8 == (-27) * mn(p, 4, 0, 2, 2, 3, 1, 0));
    lemma_tm(p, 9, 4, 0, 0, 1, 2, 1, 0, 3, 0, 0, 2, 0, 1, 1, 1);
    assert(t0 * s9 == (27) * mn(p, 4, 0, 2, 1, 3, 2, 1));
    assert(t0 * q == (27) * mn(p, 6, 0, 0, 2, 3, 1, 0) + (27) * mn(p, 5, 1, 0, 3, 2, 1, 0) + (-27) * mn(p, 5, 1, 0, 1, 2, 3, 0) + (-54) * mn(p, 5, 0, 1, 1, 3, 2, 0) + (9) * mn(p, 4, 2, 0, 1, 3, 2, 0) + (-54) * mn(p, 4, 1, 1, 2, 2, 2, 0) + (9) * mn(p, 4, 1, 1, 1, 4, 1, 0) + (27) * mn(p, 4, 1, 1, 1, 2, 3, 1) + (-27) * mn(p, 4, 0, 2, 2, 3, 1, 0) + (27) * mn(p, 4, 0, 2, 1, 3, 2, 1));
    lemma_tm(p, 27, 3, 1, 0, 2, 1, 1, 0, 3, 2, 0, 0, 1, 1, 0, 0);
    assert(t1 * s0 == (81) * mn(p, 5, 1, 0, 3, 2, 1, 0));
    lemma_tm(p, 27, 3, 1, 0, 2, 1, 1, 0, 3, 1, 1, 0, 2, 0, 0, 0);
    assert(t1 * s1 == (81) * mn(p, 4, 2, 0, 4, 1, 1, 0));
    lemma_tm(p, 27, 3, 1, 0, 2, 1, 1, 0, -3, 1, 1, 0, 0, 0, 2, 0);
    assert(t1 * s2 == (-81) * mn(p, 4, 2, 0, 2, 1, 3, 0));
    lemma_tm(p, 27, 3, 1, 0, 2, 1, 1, 0, -6, 1, 0, 1, 0, 1, 1, 0);
    assert(t1 * s3 == (-162) * mn(p, 4, 1, 1, 2, 2, 2, 0));
    lemma_tm(p, 27, 3, 1, 0, 2, 1, 1, 0, 1, 0, 2, 0, 0, 1, 1, 0);
    assert(t1 * s4 == (27) * mn(p, 3, 3, 0, 2, 2, 2, 0));
    lemma_tm(p, 27, 3, 1, 0, 2, 1, 1, 0, -6, 0, 1, 1, 1, 0, 1, 0);
    assert(t1 * s5 == (-162) * mn(p, 3, 2, 1, 3, 1, 2, 0));
    lemma_tm(p, 27, 3, 1, 0, 2, 1, 1, 0, 1, 0, 1, 1, 0, 2, 0, 0);
    assert(t1 * s6 == (27) * mn(p, 3, 2, 1, 2, 3, 1, 0));
    lemma_tm(p, 27, 3, 1, 0, 2, 1, 1, 0, 3, 0, 1, 1, 0, 0, 2, 1);
    assert(t1 * s7 == (81) * mn(p, 3, 2, 1, 2, 1, 3, 1));
    lemma_tm(p, 27, 3, 1, 0, 2, 1, 1, 0, -3, 0, 0, 2, 1, 1, 0, 0);
    assert(t1 * s8 == (-81) * mn(p, 3, 1, 2, 3, 2, 1, 0));
    lemma_tm(p, 27, 3, 1, 0, 2, 1, 1, 0, 3, 0, 0, 2, 0, 1, 1, 1);
    assert(t1 * s9 == (81) * mn(p, 3, 1, 2, 2, 2, 2, 1));
    assert(t1 * q == (81) * mn(p, 5, 1, 0, 3, 2, 1, 0) + (81) * mn(p, 4, 2, 0, 4, 1, 1, 0) + (-81) * mn(p, 4, 2, 0, 2, 1, 3, 0) + (-162) * mn(p, 4, 1, 1, 2, 2, 2, 0) + (27) * mn(p, 3, 3, 0, 2, 2, 2, 0) + (-162) * mn(p, 3, 2, 1, 3, 1, 2, 0) + (27) * mn(p, 3, 2, 1, 2, 3, 1, 0) + (81) * mn(p, 3, 2, 1, 2, 1, 3, 1) + (-81) * mn(p, 3, 1, 2, 3, 2, 1, 0) + (81) * mn(p, 3, 1, 2, 2, 2, 2, 1));
    lemma_tm(p, 3, 3, 1, 0, 1, 3, 0, 0, 3, 2, 0, 0, 1, 1, 0, 0);
    assert(t2 * s0 == (9) * mn(p, 5, 1, 0, 2, 4, 0, 0));
    lemma_tm(p, 3, 3, 1, 0, 1, 3, 0, 0, 3, 1, 1, 0, 2, 0, 0, 0);
    assert(t2 * s1 == (9) * mn(p, 4, 2, 0, 3, 3, 0, 0));
    lemma_tm(p, 3, 3, 1, 0, 1, 3, 0, 0, -3, 1, 1, 0, 0, 0, 2, 0);
    assert(t2 * s2 == (-9) * mn(p, 4, 2, 0, 1, 3, 2, 0));
    lemma_tm(p, 3, 3, 1, 0, 1, 3, 0, 0, -6, 1, 0, 1, 0, 1, 1, 0);
    assert(t2 * s3 == (-18) * mn(p, 4, 1, 1, 1, 4, 1, 0));
    lemma_tm(p, 3, 3, 1, 0, 1, 3, 0, 0, 1, 0, 2, 0, 0, 1, 1, 0);
    assert(t2 * s4 == (3) * mn(p, 3, 3, 0, 1, 4, 1, 0));
    lemma_tm(p, 3, 3, 1, 0, 1, 3, 0, 0, -6, 0, 1, 1, 1, 0, 1, 0);
    assert(t2 * s5 == (-18) * mn(p, 3, 2, 1, 2, 3, 1, 0));
    lemma_tm(p, 3, 3, 1, 0, 1, 3, 0, 0, 1, 0, 1, 1, 0, 2, 0, 0);
    assert(t2 * s6 == (3) * mn(p, 3, 2, 1, 1, 5, 0, 0));
    lemma_tm(p, 3, 3, 1, 0, 1, 3, 0, 0, 3, 0, 1, 1, 0, 0, 2, 1);
    assert(t2 * s7 == (9) * mn(p, 3, 2, 1, 1, 3, 2, 1));
    lemma_tm(p, 3, 3, 1, 0, 1, 3, 0, 0, -3, 0, 0, 2, 1, 1, 0, 0);
    assert(t2 * s8 == (-9) * mn(p, 3, 1, 2, 2, 4, 0, 0));
    lemma_tm(p, 3, 3, 1, 0, 1, 3, 0, 0, 3, 0, 0, 2, 0, 1, 1, 1);
    assert(t2 * s9 == (9) * mn(p, 3, 1, 2, 1, 4, 1, 1));
    assert(t2 * q == (9) * mn(p, 5, 1, 0, 2, 4, 0, 0) + (9) * mn(p, 4, 2, 0, 3, 3, 0, 0) + (-9) * mn(p, 4, 2, 0, 1, 3, 2, 0) + (-18) * mn(p, 4, 1, 1, 1, 4, 1, 0) + (3) * mn(p, 3, 3, 0, 1, 4, 1, 0) + (-18) * mn(p, 3, 2, 1, 2, 3, 1, 0) + (3) * mn(p, 3, 2, 1, 1, 5, 0, 0) + (9) * mn(p, 3, 2, 1, 1, 3, 2, 1) + (-9) * mn(p, 3, 1, 2, 2, 4, 0, 0) + (9) * mn(p, 3, 1, 2, 1, 4, 1, 1));
    lemma_tm(p, -9, 3, 1, 0, 1, 1, 2, 1, 3, 2, 0, 0, 1, 1, 0, 0);
    assert(t3 * s0 == (-27) * mn(p, 5, 1, 0, 2, 2, 2, 1));
    lemma_tm(p, -9, 3, 1, 0, 1, 1, 2, 1, 3, 1, 1, 0, 2, 0, 0, 0);
    assert(t3 * s1 == (-27) * mn(p, 4, 2, 0, 3, 1, 2, 1));
    lemma_tm(p, -9, 3, 1, 0, 1, 1, 2, 1, -3, 1, 1, 0, 0, 0, 2, 0);
    assert(t3 * s2 == (27) * mn(p, 4, 2, 0, 1, 1, 4, 1));
    lemma_tm(p, -9, 3, 1, 0, 1, 1, 2, 1, -6, 1, 0, 1, 0, 1, 1, 0);
    assert(t3 * s3 == (54) * mn(p, 4, 1, 1, 1, 2, 3, 1));
    lemma_tm(p, -9, 3, 1, 0, 1, 1, 2, 1, 1, 0, 2, 0, 0, 1, 1, 0);
    assert(t3 * s4 == (-9) * mn(p, 3, 3, 0, 1, 2, 3, 1));
    lemma_tm(p, -9, 3, 1, 0, 1, 1, 2, 1, -6, 0, 1, 1, 1, 0, 1, 0);
    assert(t3 * s5 == (54) * mn(p, 3, 2, 1, 2, 1, 3, 1));
    lemma_tm(p, -9, 3, 1, 0, 1, 1, 2, 1, 1, 0, 1, 1, 0, 2, 0, 0);
    assert(t3 * s6 == (-9) * mn(p, 3, 2, 1, 1, 3, 2, 1));
    lemma_tm(p, -9, 3, 1, 0, 1, 1, 2, 1, 3, 0, 1, 1, 0, 0, 2, 1);
    assert(t3 * s7 == (-27) * mn(p, 3, 2, 1, 1, 1, 4, 2));
    lemma_tm(p, -9, 3, 1, 0, 1, 1, 2, 1, -3, 0, 0, 2, 1, 1, 0, 0);
    assert(t3 * s8 == (27) * mn(p, 3, 1, 2, 2, 2, 2, 1));
    lemma_tm(p, -9, 3, 1, 0, 1, 1, 2, 1, 3, 0, 0, 2, 0, 1, 1, 1);
    assert(t3 * s9 == (-27) * mn(p, 3, 1, 2, 1, 2, 3, 2));
    assert(t3 * q == (-27) * mn(p, 5, 1, 0, 2, 2, 2, 1) + (-27) * mn(p, 4, 2, 0, 3, 1, 2, 1) + (27) * mn(p, 4, 2, 0, 1, 1, 4, 1) + (54) * mn(p, 4, 1, 1, 1, 2, 3, 1) + (-9) * mn(p, 3, 3, 0, 1, 2, 3, 1) + (54) * mn(p, 3, 2, 1, 2, 1, 3, 1) + (-9) * mn(p, 3, 2, 1, 1, 3, 2, 1) + (-27) * mn(p, 3, 2, 1, 1, 1, 4, 2) + (27) * mn(p, 3, 1, 2, 2, 2, 2, 1) + (-27) * mn(p, 3, 1, 2, 1, 2, 3, 2));
    lemma_tm(p, -9, 3, 1, 0, 0, 1, 3, 0, 3, 2, 0, 0, 1, 1, 0, 0);
    assert(t4 * s0 == (-27) * mn(p, 5, 1, 0, 1, 2, 3, 0));
    lemma_tm(p, -9, 3, 1, 0, 0, 1, 3, 0, 3, 1, 1, 0, 2, 0, 0, 0);
    assert(t4 * s1 == (-27) * mn(p, 4, 2, 0, 2, 1, 3, 0));
    lemma_tm(p, -9, 3, 1, 0, 0, 1, 3, 0, -3, 1, 1, 0, 0, 0, 2, 0);
    assert(t4 * s2 == (27) * mn(p, 4, 2, 0, 0, 1, 5, 0));
    lemma_tm(p, -9, 3, 1, 0, 0, 1, 3, 0, -6, 1, 0, 1, 0, 1, 1, 0);
    assert(t4 * s3 == (54) * mn(p, 4, 1, 1, 0, 2, 4, 0));
    lemma_tm(p, -9, 3, 1, 0, 0, 1, 3, 0, 1, 0, 2, 0, 0, 1, 1, 0);
    assert(t4 * s4 == (-9) * mn(p, 3, 3, 0, 0, 2, 4, 0));
    lemma_tm(p, -9, 3, 1, 0, 0, 1, 3, 0, -6, 0, 1, 1, 1, 0, 1, 0);
    assert(t4 * s5 == (54) * mn(p, 3, 2, 1, 1, 1, 4, 0));
    lemma_tm(p, -9, 3, 1, 0, 0, 1, 3, 0, 1, 0, 1, 1, 0, 2, 0, 0);
    assert(t4 * s6 == (-9) * mn(p, 3, 2, 1, 0, 3, 3, 0));
    lemma_tm(p, -9, 3, 1, 0, 0, 1, 3, 0, 3, 0, 1, 1, 0, 0, 2, 1);
    assert(t4 * s7 == (-27) * mn(p, 3, 2, 1, 0, 1, 5, 1));
    lemma_tm(p, -9, 3, 1, 0, 0, 1, 3, 0, -3, 0, 0, 2, 1, 1, 0, 0);
    assert(t4 * s8 == (27) * mn(p, 3, 1, 2, 1, 2, 3, 0));
    lemma_tm(p, -9, 3, 1, 0, 0, 1, 3, 0, 3, 0, 0, 2, 0, 1, 1, 1);
    assert(t4 * s9 == (-27) * mn(p, 3, 1, 2, 0, 2, 4, 1));
    assert(t4 * q == (-27) * mn(p, 5, 1, 0, 1, 2, 3, 0) + (-27) * mn(p, 4, 2, 0, 2, 1, 3, 0) + (27) * mn(p, 4, 2, 0, 0, 1, 5, 0) + (54) * mn(p, 4, 1, 1, 0, 2, 4, 0) + (-9) * mn(p, 3, 3, 0, 0, 2, 4, 0) + (54) * mn(p, 3, 2, 1, 1, 1, 4, 0) + (-9) * mn(p, 3, 2, 1, 0, 3, 3, 0) + (-27) * mn(p, 3, 2, 1, 0, 1, 5, 1) + (27) * mn(p, 3, 1, 2, 1, 2, 3, 0) + (-27) * mn(p, 3, 1, 2, 0, 2, 4, 1));
    lemma_tm(p, 18, 3, 0, 1, 2, 2, 0, 0, 3, 2, 0, 0, 1, 1, 0, 0);
    assert(t5 * s0 == (54) * mn(p, 5, 0, 1, 3, 3, 0, 0));
    lemma_tm(p, 18, 3, 0, 1, 2, 2, 0, 0, 3, 1, 1, 0, 2, 0, 0, 0);
    assert(t5 * s1 == (54) * mn(p, 4, 1, 1, 4, 2, 0, 0));
    lemma_tm(p, 18, 3, 0, 1, 2, 2, 0, 0, -3, 1, 1, 0, 0, 0, 2, 0);
    assert(t5 * s2 == (-54) * mn(p, 4, 1, 1, 2, 2, 2, 0));
    lemma_tm(p, 18, 3, 0, 1, 2, 2, 0, 0, -6, 1, 0, 1, 0, 1, 1, 0);
    assert(t5 * s3 == (-108) * mn(p, 4, 0, 2, 2, 3, 1, 0));
    lemma_tm(p, 18, 3, 0, 1, 2, 2, 0, 0, 1, 0, 2, 0, 0, 1, 1, 0);
    assert(t5 * s4 == (18) * mn(p, 3, 2, 1, 2, 3, 1, 0));
    lemma_tm(p, 18, 3, 0, 1, 2, 2, 0, 0, -6, 0, 1, 1, 1, 0, 1, 0);
    assert(t5 * s5 == (-108) * mn(p, 3, 1, 2, 3, 2, 1, 0));
    lemma_tm(p, 18, 3, 0, 1, 2, 2, 0, 0, 1, 0, 1, 1, 0, 2, 0, 0);
    assert(t5 * s6 == (18) * mn(p, 3, 1, 2, 2, 4, 0, 0));
    lemma_tm(p, 18, 3, 0, 1, 2, 2, 0, 0, 3, 0, 1, 1, 0, 0, 2, 1);
    assert(t5 * s7 == (54) * mn(p, 3, 1, 2, 2, 2, 2, 1));
    lemma_tm(p, 18, 3, 0, 1, 2, 2, 0, 0, -3, 0, 0, 2, 1, 1, 0, 0);
    assert(t5 * s8 == (-54) * mn(p, 3, 0, 3, 3, 3, 0, 0));
    lemma_tm(p, 18, 3, 0, 1, 2, 2, 0, 0, 3, 0, 0, 2, 0, 1, 1, 1);
    assert(t5 * s9 == (54) * mn(p, 3, 0, 3, 2, 3, 1, 1));
    assert(t5 * q == (54) * mn(p, 5, 0, 1, 3, 3, 0, 0) + (54) * mn(p, 4, 1, 1, 4, 2, 0, 0) + (-54) * mn(p, 4, 1, 1, 2, 2, 2, 0) + (-108) * mn(p, 4, 0, 2, 2, 3, 1, 0) + (18) * mn(p, 3, 2, 1, 2, 3, 1, 0) + (-108) * mn(p, 3, 1, 2, 3, 2, 1, 0) + (18) * mn(p, 3, 1, 2, 2, 4, 0, 0) + (54) * mn(p, 3, 1, 2, 2, 2, 2, 1) + (-54) * mn(p, 3, 0, 3, 3, 3, 0, 0) + (54) * mn(p, 3, 0, 3, 2, 3, 1, 1));
    lemma_tm(p, -18, 3, 0, 1, 1, 2, 1, 1, 3, 2, 0, 0, 1, 1, 0, 0);
    assert(t6 * s0 == (-54) * mn(p, 5, 0, 1, 2, 3, 1, 1));
    lemma_tm(p, -18, 3, 0, 1, 1, 2, 1, 1, 3, 1, 1, 0, 2, 0, 0, 0);
    assert(t6 * s1 == (-54) * mn(p, 4, 1, 1, 3, 2, 1, 1));
    lemma_tm(p, -18, 3, 0, 1, 1, 2, 1, 1, -3, 1, 1, 0, 0, 0, 2, 0);
    assert(t6 * s2 == (54) * mn(p, 4, 1, 1, 1, 2, 3, 1));
    lemma_tm(p, -18, 3, 0, 1, 1, 2, 1, 1, -6, 1, 0, 1, 0, 1, 1, 0);
    assert(t6 * s3 == (108) * mn(p, 4, 0, 2, 1, 3, 2, 1));
    lemma_tm(p, -18, 3, 0, 1, 1, 2, 1, 1, 1, 0, 2, 0, 0, 1, 1, 0);
    assert(t6 * s4 == (-18) * mn(p, 3, 2, 1, 1, 3, 2, 1));
    lemma_tm(p, -18, 3, 0, 1, 1, 2, 1, 1, -6, 0, 1, 1, 1, 0, 1, 0);
    assert(t6 * s5 == (108) * mn(p, 3, 1, 2, 2, 2, 2, 1));
    lemma_tm(p, -18, 3, 0, 1, 1, 2, 1, 1, 1, 0, 1, 1, 0, 2, 0, 0);
    assert(t6 * s6 == (-18) * mn(p, 3, 1, 2, 1, 4, 1, 1));
    lemma_tm(p, -18, 3, 0, 1, 1, 2, 1, 1, 3, 0, 1, 1, 0, 0, 2, 1);
    assert(t6 * s7 == (-54) * mn(p, 3, 1, 2, 1, 2, 3, 2));
    lemma_tm(p, -18, 3, 0, 1, 1, 2, 1, 1, -3, 0, 0, 2, 1, 1, 0, 0);
    assert(t6 * s8 == (54) * mn(p, 3, 0, 3, 2, 3, 1, 1));
    lemma_tm(p, -18, 3, 0, 1, 1, 2, 1, 1, 3, 0, 0, 2, 0, 1, 1, 1);
    assert(t6 * s9 == (-54) * mn(p, 3, 0, 3, 1, 3, 2, 2));
    assert(t6 * q == (-54) * mn(p, 5, 0, 1, 2, 3, 1, 1) + (-54) * mn(p, 4, 1, 1, 3, 2, 1, 1) + (54) * mn(p, 4, 1, 1, 1, 2, 3, 1) + (108) * mn(p, 4, 0, 2, 1, 3, 2, 1) + (-18) * mn(p, 3, 2, 1, 1, 3, 2, 1) + (108) * mn(p, 3, 1, 2, 2, 2, 2, 1) + (-18) * mn(p, 3, 1, 2, 1, 4, 1, 1) + (-54) * mn(p, 3, 1, 2, 1, 2, 3, 2) + (54) * mn(p, 3, 0, 3, 2, 3, 1, 1) + (-54) * mn(p, 3, 0, 3, 1, 3, 2, 2));
    lemma_tm(p, -18, 3, 0, 1, 0, 2, 2, 0, 3, 2, 0, 0, 1, 1, 0, 0);
    assert(t7 * s0 == (-54) * mn(p, 5, 0, 1, 1, 3, 2, 0));
    lemma_tm(p, -18, 3, 0, 1, 0, 2, 2, 0, 3, 1, 1, 0, 2, 0, 0, 0);
    assert(t7 * s1 == (-54) * mn(p, 4, 1, 1, 2, 2, 2, 0));
    lemma_tm(p, -18, 3, 0, 1, 0, 2, 2, 0, -3, 1, 1, 0, 0, 0, 2, 0);
    assert(t7 * s2 == (54) * mn(p, 4, 1, 1, 0, 2, 4, 0));
    lemma_tm(p, -18, 3, 0, 1, 0, 2, 2, 0, -6, 1, 0, 1, 0, 1, 1, 0);
    assert(t7 * s3 == (108) * mn(p, 4, 0, 2, 0, 3, 3, 0));
    lemma_tm(p, -18, 3, 0, 1, 0, 2, 2, 0, 1, 0, 2, 0, 0, 1, 1, 0);
    assert(t7 * s4 == (-18) * mn(p, 3, 2, 1, 0, 3, 3, 0));
    lemma_tm(p, -18, 3, 0, 1, 0, 2, 2, 0, -6, 0, 1, 1, 1, 0, 1, 0);
    assert(t7 * s5 == (108) * mn(p, 3, 1, 2, 1, 2, 3, 0));
    lemma_tm(p, -18, 3, 0, 1, 0, 2, 2, 0, 1, 0, 1, 1, 0, 2, 0, 0);
    assert(t7 * s6 == (-18) * mn(p, 3, 1, 2, 0, 4, 2, 0));
    lemma_tm(p, -18, 3, 0, 1, 0, 2, 2, 0, 3, 0, 1, 1, 0, 0, 2, 1);
    assert(t7 * s7 == (-54) * mn(p, 3, 1, 2, 0, 2, 4, 1));
    lemma_tm(p, -18, 3, 0, 1, 0, 2, 2, 0, -3, 0, 0, 2, 1, 1, 0, 0);
    assert(t7 * s8 == (54) * mn(p, 3, 0, 3, 1, 3, 2, 0));
    lemma_tm(p, -18, 3, 0, 1, 0, 2, 2, 0, 3, 0, 0, 2, 0, 1, 1, 1);
    assert(t7 * s9 == (-54) * mn(p, 3, 0, 3, 0, 3, 3, 1));
    assert(t7 * q == (-54) * mn(p, 5, 0, 1, 1, 3, 2, 0) + (-54) * mn(p, 4, 1, 1, 2, 2, 2, 0) + (54) * mn(p, 4, 1, 1, 0, 2, 4, 0) + (108) * mn(p, 4, 0, 2, 0, 3, 3, 0) + (-18) * mn(p, 3, 2, 1, 0, 3, 3, 0) + (108) * mn(p, 3, 1, 2, 1, 2, 3, 0) + (-18) * mn(p, 3, 1, 2, 0, 4, 2, 0) + (-54) * mn(p, 3, 1, 2, 0, 2, 4, 1) + (54) * mn(p, 3, 0, 3, 1, 3, 2, 0) + (-54) * mn(p, 3, 0, 3, 0, 3, 3, 1));
    lemma_tm(p, 18, 2, 2, 0, 3, 0, 1, 0, 3, 2, 0, 0, 1, 1, 0, 0);
    assert(t8 * s0 == (54) * mn(p, 4, 2, 0, 4, 1, 1, 0));
    lemma_tm(p, 18, 2, 2, 0, 3, 0, 1, 0, 3, 1, 1, 0, 2, 0, 0, 0);
    assert(t8 * s1 == (54) * mn(p, 3, 3, 0, 5, 0, 1, 0));
    lemma_tm(p, 18, 2, 2, 0, 3, 0, 1, 0, -3, 1, 1, 0, 0, 0, 2, 0);
    assert(t8 * s2 == (-54) * mn(p, 3, 3, 0, 3, 0, 3, 0));
    lemma_tm(p, 18, 2, 2, 0, 3, 0, 1, 0, -6, 1, 0, 1, 0, 1, 1, 0);
    assert(t8 * s3 == (-108) * mn(p, 3, 2, 1, 3, 1, 2, 0));
    lemma_tm(p, 18, 2, 2, 0, 3, 0, 1, 0, 1, 0, 2, 0, 0, 1, 1, 0);
    assert(t8 * s4 == (18) * mn(p, 2, 4, 0, 3, 1, 2, 0));
    lemma_tm(p, 18, 2, 2, 0, 3, 0, 1, 0, -6, 0, 1, 1, 1, 0, 1, 0);
    assert(t8 * s5 == (-108) * mn(p, 2, 3, 1, 4, 0, 2, 0));
    lemma_tm(p, 18, 2, 2, 0, 3, 0, 1, 0, 1, 0, 1, 1, 0, 2, 0, 0);
    assert(t8 * s6 == (18) * mn(p, 2, 3, 1, 3, 2, 1, 0));
    lemma_tm(p, 18, 2, 2, 0, 3, 0, 1, 0, 3, 0, 1, 1, 0, 0, 2, 1);
    assert(t8 * s7 == (54) * mn(p, 2, 3, 1, 3, 0, 3, 1));
    lemma_tm(p, 18, 2, 2, 0, 3, 0, 1, 0, -3, 0, 0, 2, 1, 1, 0, 0);
    assert(t8 * s8 == (-54) * mn(p, 2, 2, 2, 4, 1, 1, 0));
    lemma_tm(p, 18, 2, 2, 0, 3, 0, 1, 0, 3, 0, 0, 2, 0, 1, 1, 1);
    assert(t8 * s9 == (54) * mn(p, 2, 2, 2, 3, 1, 2, 1));
    assert(t8 * q == (54) * mn(p, 4, 2, 0, 4, 1, 1, 0) + (54) * mn(p, 3, 3, 0, 5, 0, 1, 0) + (-54) * mn(p, 3, 3, 0, 3, 0, 3, 0) + (-108) * mn(p, 3, 2, 1, 3, 1, 2, 0) + (18) * mn(p, 2, 4, 0, 3, 1, 2, 0) + (-108) * mn(p, 2, 3, 1, 4, 0, 2, 0) + (18) * mn(p, 2, 3, 1, 3, 2, 1, 0) + (54) * mn(p, 2, 3, 1, 3, 0, 3, 1) + (-54) * mn(p, 2, 2, 2, 4, 1, 1, 0) + (54) * mn(p, 2, 2, 2, 3, 1, 2, 1));
    lemma_tm(p, 6, 2, 2, 0, 2, 2, 0, 0, 3, 2, 0, 0, 1, 1, 0, 0);
    assert(t9 * s0 == (18) * mn(p, 4, 2, 0, 3, 3, 0, 0));
    lemma_tm(p, 6, 2, 2, 0, 2, 2, 0, 0, 3, 1, 1, 0, 2, 0, 0, 0);
    assert(t9 * s1 == (18) * mn(p, 3, 3, 0, 4, 2, 0, 0));
    lemma_tm(p, 6, 2, 2, 0, 2, 2, 0, 0, -3, 1, 1, 0, 0, 0, 2, 0);
    assert(t9 * s2 == (-18) * mn(p, 3, 3, 0, 2, 2, 2, 0));
    lemma_tm(p, 6, 2, 2, 0, 2, 2, 0, 0, -6, 1, 0, 1, 0, 1, 1, 0);
    assert(t9 * s3 == (-36) * mn(p, 3, 2, 1, 2, 3, 1, 0));
    lemma_tm(p, 6, 2, 2, 0, 2, 2, 0, 0, 1, 0, 2, 0, 0, 1, 1, 0);
    assert(t9 * s4 == (6) * mn(p, 2, 4, 0, 2, 3, 1, 0));
    lemma_tm(p, 6, 2, 2, 0, 2, 2, 0, 0, -6, 0, 1, 1, 1, 0, 1, 0);
    assert(t9 * s5 == (-36) * mn(p, 2, 3, 1, 3, 2, 1, 0));
    lemma_tm(p, 6, 2, 2, 0, 2, 2, 0, 0, 1, 0, 1, 1, 0, 2, 0, 0);
    assert(t9 * s6 == (6) * mn(p, 2, 3, 1, 2, 4, 0, 0));
    lemma_tm(p, 6, 2, 2, 0, 2, 2, 0, 0, 3, 0, 1, 1, 0, 0, 2, 1);
    assert(t9 * s7 == (18) * mn(p, 2, 3, 1, 2, 2, 2, 1));
    lemma_tm(p, 6, 2, 2, 0, 2, 2, 0, 0, -3, 0, 0, 2, 1, 1, 0, 0);
    assert(t9 * s8 == (-18) * mn(p, 2, 2, 2, 3, 3, 0, 0));
    lemma_tm(p, 6, 2, 2, 0, 2, 2, 0, 0, 3, 0, 0, 2, 0, 1, 1, 1);
    assert(t9 * s9 == (18) * mn(p, 2, 2, 2, 2, 3, 1, 1));
    assert(t9 * q == (18) * mn(p, 4, 2, 0, 3, 3, 0, 0) + (18) * mn(p, 3, 3, 0, 4, 2, 0, 0) + (-18) * mn(p, 3, 3, 0, 2, 2, 2, 0) + (-36) * mn(p, 3, 2, 1, 2, 3, 1, 0) + (6) * mn(p, 2, 4, 0, 2, 3, 1, 0) + (-36) * mn(p, 2, 3, 1, 3, 2, 1, 0) + (6) * mn(p, 2, 3, 1, 2, 4, 0, 0) + (18) * mn(p, 2, 3, 1, 2, 2, 2, 1) + (-18) * mn(p, 2, 2, 2, 3, 3, 0, 0) + (18) * mn(p, 2, 2, 2, 2, 3, 1, 1));
    lemma_tm(p, -9, 2, 2, 0, 2, 0, 2, 1, 3, 2, 0, 0, 1, 1, 0, 0);
    assert(t10 * s0 == (-27) * mn(p, 4, 2, 0, 3, 1, 2, 1));
    lemma_tm(p, -9, 2, 2, 0, 2, 0, 2, 1, 3, 1, 1, 0, 2, 0, 0, 0);
    assert(t10 * s1 == (-27) * mn(p, 3, 3, 0, 4, 0, 2, 1));
    lemma_tm(p, -9, 2, 2, 0, 2, 0, 2, 1, -3, 1, 1, 0, 0, 0, 2, 0);
    assert(t10 * s2 == (27) * mn(p, 3, 3, 0, 2, 0, 4, 1));
    lemma_tm(p, -9, 2, 2, 0, 2, 0, 2, 1, -6, 1, 0, 1, 0, 1, 1, 0);
    assert(t10 * s3 == (54) * mn(p, 3, 2, 1, 2, 1, 3, 1));
    lemma_tm(p, -9, 2, 2, 0, 2, 0, 2, 1, 1, 0, 2, 0, 0, 1, 1, 0);
    assert(t10 * s4 == (-9) * mn(p, 2, 4, 0, 2, 1, 3, 1));
    lemma_tm(p, -9, 2, 2, 0, 2, 0, 2, 1, -6, 0, 1, 1, 1, 0, 1, 0);
    assert(t10 * s5 == (54) * mn(p, 2, 3, 1, 3, 0, 3, 1));
    lemma_tm(p, -9, 2, 2, 0, 2, 0, 2, 1, 1, 0, 1, 1, 0, 2, 0, 0);
    assert(t10 * s6 == (-9) * mn(p, 2, 3, 1, 2, 2, 2, 1));
    lemma_tm(p, -9, 2, 2, 0, 2, 0, 2, 1, 3, 0, 1, 1, 0, 0, 2, 1);
    assert(t10 * s7 == (-27) * mn(p, 2, 3, 1, 2, 0, 4, 2));
    lemma_tm(p, -9, 2, 2, 0, 2, 0, 2, 1, -3, 0, 0, 2, 1, 1, 0, 0);
    assert(t10 * s8 == (27) * mn(p, 2, 2, 2, 3, 1, 2, 1));
    lemma_tm(p, -9, 2, 2, 0, 2, 0, 2, 1, 3, 0, 0, 2, 0, 1, 1, 1);
    assert(t10 * s9 == (-27) * mn(p, 2, 2, 2, 2, 1, 3, 2));
    assert(t10 * q == (-27) * mn(p, 4, 2, 0, 3, 1, 2, 1) + (-27) * mn(p, 3, 3, 0, 4, 0, 2, 1) + (27) * mn(p, 3, 3, 0, 2, 0, 4, 1) + (54) * mn(p, 3, 2, 1, 2, 1, 3, 1) + (-9) * mn(p, 2, 4, 0, 2, 1, 3, 1) + (54) * mn(p, 2, 3, 1, 3, 0, 3, 1) + (-9) * mn(p, 2, 3, 1, 2, 2, 2, 1) + (-27) * mn(p, 2, 3, 1, 2, 0, 4, 2) + (27) * mn(p, 2, 2, 2, 3, 1, 2, 1) + (-27) * mn(p, 2, 2, 2, 2, 1, 3, 2));
    lemma_tm(p, -18, 2, 2, 0, 1, 0, 3, 0, 3, 2, 0, 0, 1, 1, 0, 0);
    assert(t11 * s0 == (-54) * mn(p, 4, 2, 0, 2, 1, 3, 0));
    lemma_tm(p, -18, 2, 2, 0, 1, 0, 3, 0, 3, 1, 1, 0, 2, 0, 0, 0);
    assert(t11 * s1 == (-54) * mn(p, 3, 3, 0, 3, 0, 3, 0));
    lemma_tm(p, -18, 2, 2, 0, 1, 0, 3, 0, -3, 1, 1, 0, 0, 0, 2, 0);
    assert(t11 * s2 == (54) * mn(p, 3, 3, 0, 1, 0, 5, 0));
    lemma_tm(p, -18, 2, 2, 0, 1, 0, 3, 0, -6, 1, 0, 1, 0, 1, 1, 0);
    assert(t11 * s3 == (108) * mn(p, 3, 2, 1, 1, 1, 4, 0));
    lemma_tm(p, -18, 2, 2, 0, 1, 0, 3, 0, 1, 0, 2, 0, 0, 1, 1, 0);
    assert(t11 * s4 == (-18) * mn(p, 2, 4, 0, 1, 1, 4, 0));
    lemma_tm(p, -18, 2, 2, 0, 1, 0, 3, 0, -6, 0, 1, 1, 1, 0, 1, 0);
    assert(t11 * s5 == (108) * mn(p, 2, 3, 1, 2, 0, 4, 0));
    lemma_tm(p, -18, 2, 2, 0, 1, 0, 3, 0, 1, 0, 1, 1, 0, 2, 0, 0);
    assert(t11 * s6 == (-18) * mn(p, 2, 3, 1, 1, 2, 3, 0));
    lemma_tm(p, -18, 2, 2, 0, 1, 0, 3, 0, 3, 0, 1, 1, 0, 0, 2, 1);
    assert(t11 * s7 == (-54) * mn(p, 2, 3, 1, 1, 0, 5, 1));
    lemma_tm(p, -18, 2, 2, 0, 1, 0, 3, 0, -3, 0, 0, 2, 1, 1, 0, 0);
    assert(t11 * s8 == (54) * mn(p, 2, 2, 2, 2, 1, 3, 0));
    lemma_tm(p, -18, 2, 2, 0, 1, 0, 3, 0, 3, 0, 0, 2, 0, 1, 1, 1);
    assert(t11 * s9 == (-54) * mn(p, 2, 2, 2, 1, 1, 4, 1));
    assert(t11 * q == (-54) * mn(p, 4, 2, 0, 2, 1, 3, 0) + (-54) * mn(p, 3, 3, 0, 3, 0, 3, 0) + (54) * mn(p, 3, 3, 0, 1, 0, 5, 0) + (108) * mn(p, 3, 2, 1, 1, 1, 4, 0) + (-18) * mn(p, 2, 4, 0, 1, 1, 4, 0) + (108) * mn(p, 2, 3, 1, 2, 0, 4, 0) + (-18) * mn(p, 2, 3, 1, 1, 2, 3, 0) + (-54) * mn(p, 2, 3, 1, 1, 0, 5, 1) + (54) * mn(p, 2, 2, 2, 2, 1, 3, 0) + (-54) * mn(p, 2, 2, 2, 1, 1, 4, 1));
    lemma_tm(p, 9, 2, 2, 0, 0, 0, 4, 1, 3, 2, 0, 0, 1, 1, 0, 0);
    assert(t12 * s0 == (27) * mn(p, 4, 2, 0, 1, 1, 4, 1));
    lemma_tm(p, 9, 2, 2, 0, 0, 0, 4, 1, 3, 1, 1, 0, 2, 0, 0, 0);
    assert(t12 * s1 == (27) * mn(p, 3, 3, 0, 2, 0, 4, 1));
    lemma_tm(p, 9, 2, 2, 0, 0, 0, 4, 1, -3, 1, 1, 0, 0, 0, 2, 0);
    assert(t12 * s2 == (-27) * mn(p, 3, 3, 0, 0, 0, 6, 1));
    lemma_tm(p, 9, 2, 2, 0, 0, 0, 4, 1, -6, 1, 0, 1, 0, 1, 1, 0);
    assert(t12 * s3 == (-54) * mn(p, 3, 2, 1, 0, 1, 5, 1));
    lemma_tm(p, 9, 2, 2, 0, 0, 0, 4, 1, 1, 0, 2, 0, 0, 1, 1, 0);
    assert(t12 * s4 == (9) * mn(p, 2, 4, 0, 0, 1, 5, 1));
    lemma_tm(p, 9, 2, 2, 0, 0, 0, 4, 1, -6, 0, 1, 1, 1, 0, 1, 0);
    assert(t12 * s5 == (-54) * mn(p, 2, 3, 1, 1, 0, 5, 1));
    lemma_tm(p, 9, 2, 2, 0, 0, 0, 4, 1, 1, 0, 1, 1, 0, 2, 0, 0);
    assert(t12 * s6 == (9) * mn(p, 2, 3, 1, 0, 2, 4, 1));
    lemma_tm(p, 9, 2, 2, 0, 0, 0, 4, 1, 3, 0, 1, 1, 0, 0, 2, 1);
    assert(t12 * s7 == (27) * mn(p, 2, 3, 1, 0, 0, 6, 2));
    lemma_tm(p, 9, 2, 2, 0, 0, 0, 4, 1, -3, 0, 0, 2, 1, 1, 0, 0);
    assert(t12 * s8 == (-27) * mn(p, 2, 2, 2, 1, 1, 4, 1));
    lemma_tm(p, 9, 2, 2, 0, 0, 0, 4, 1, 3, 0, 0, 2, 0, 1, 1, 1);
    assert(t12 * s9 == (27) * mn(p, 2, 2, 2, 0, 1, 5, 2));
    assert(t12 * q == (27) * mn(p, 4, 2, 0, 1, 1, 4, 1) + (27) * mn(p, 3, 3, 0, 2, 0, 4, 1) + (-27) * mn(p, 3, 3, 0, 0, 0, 6, 1) + (-54) * mn(p, 3, 2, 1, 0, 1, 5, 1) + (9) * mn(p, 2, 4, 0, 0, 1, 5, 1) + (-54) * mn(p, 2, 3, 1, 1, 0, 5, 1) + (9) * mn(p, 2, 3, 1, 0, 2, 4, 1) + (27) * mn(p, 2, 3, 1, 0, 0, 6, 2) + (-27) * mn(p, 2, 2, 2, 1, 1, 4, 1) + (27) * mn(p, 2, 2, 2, 0, 1, 5, 2));
    lemma_tm(p, 27, 2, 1, 1, 3, 1, 0, 0, 3, 2, 0, 0, 1, 1, 0, 0);
    assert(t13 * s0 == (81) * mn(p, 4, 1, 1, 4, 2, 0, 0));
    lemma_tm(p, 27, 2, 1, 1, 3, 1, 0, 0, 3, 1, 1, 0, 2, 0, 0, 0);
    assert(t13 * s1 == (81) * mn(p, 3, 2, 1, 5, 1, 0, 0));
    lemma_tm(p, 27, 2, 1, 1, 3, 1, 0, 0, -3, 1, 1, 0, 0, 0, 2, 0);
    assert(t13 * s2 == (-81) * mn(p, 3, 2, 1, 3, 1, 2, 0));
    lemma_tm(p, 27, 2, 1, 1, 3, 1, 0, 0, -6, 1, 0, 1, 0, 1, 1, 0);
    assert(t13 * s3 == (-162) * mn(p, 3, 1, 2, 3, 2, 1, 0));
    lemma_tm(p, 27, 2, 1, 1, 3, 1, 0, 0, 1, 0, 2, 0, 0, 1, 1, 0);
    assert(t13 * s4 == (27) * mn(p, 2, 3, 1, 3, 2, 1, 0));
    lemma_tm(p, 27, 2, 1, 1, 3, 1, 0, 0, -6, 0, 1, 1, 1, 0, 1, 0);
    assert(t13 * s5 == (-162) * mn(p, 2, 2, 2, 4, 1, 1, 0));
    lemma_tm(p, 27, 2, 1, 1, 3, 1, 0, 0, 1, 0, 1, 1, 0, 2, 0, 0);
    assert(t13 * s6 == (27) * mn(p, 2, 2, 2, 3, 3, 0, 0));
    lemma_tm(p, 27, 2, 1, 1, 3, 1, 0, 0, 3, 0, 1, 1, 0, 0, 2, 1);
    assert(t13 * s7 == (81) * mn(p, 2, 2, 2, 3, 1, 2, 1));
    lemma_tm(p, 27, 2, 1, 1, 3, 1, 0, 0, -3, 0, 0, 2, 1, 1, 0, 0);
    assert(t13 * s8 == (-81) * mn(p, 2, 1, 3, 4, 2, 0, 0));
    lemma_tm(p, 27, 2, 1, 1, 3, 1, 0, 0, 3, 0, 0, 2, 0, 1, 1, 1);
    assert(t13 * s9 == (81) * mn(p, 2, 1, 3, 3, 2, 1, 1));
    assert(t13 * q == (81) * mn(p, 4, 1, 1, 4, 2, 0, 0) + (81) * mn(p, 3, 2, 1, 5, 1, 0, 0) + (-81) * mn(p, 3, 2, 1, 3, 1, 2, 0) + (-162) * mn(p, 3, 1, 2, 3, 2, 1, 0) + (27) * mn(p, 2, 3, 1, 3, 2, 1, 0) + (-162) * mn(p, 2, 2, 2, 4, 1, 1, 0) + (27) * mn(p, 2, 2, 2, 3, 3, 0, 0) + (81) * mn(p, 2, 2, 2, 3, 1, 2, 1) + (-81) * mn(p, 2, 1, 3, 4, 2, 0, 0) + (81) * mn(p, 2, 1, 3, 3, 2, 1, 1));
    lemma_tm(p, -36, 2, 1, 1, 2, 1, 1, 1, 3, 2, 0, 0, 1, 1, 0, 0);
    assert(t14 * s0 == (-108) * mn(p, 4, 1, 1, 3, 2, 1, 1));
    lemma_tm(p, -36, 2, 1, 1, 2, 1, 1, 1, 3, 1, 1, 0, 2, 0, 0, 0);
    assert(t14 * s1 == (-108) * mn(p, 3, 2, 1, 4, 1, 1, 1));
    lemma_tm(p, -36, 2, 1, 1, 2, 1, 1, 1, -3, 1, 1, 0, 0, 0, 2, 0);
    assert(t14 * s2 == (108) * mn(p, 3, 2, 1, 2, 1, 3, 1));
    lemma_tm(p, -36, 2, 1, 1, 2, 1, 1, 1, -6, 1, 0, 1, 0, 1, 1, 0);
    assert(t14 * s3 == (216) * mn(p, 3, 1, 2, 2, 2, 2, 1));
    lemma_tm(p, -36, 2, 1, 1, 2, 1, 1, 1, 1, 0, 2, 0, 0, 1, 1, 0);
    assert(t14 * s4 == (-36) * mn(p, 2, 3, 1, 2, 2, 2, 1));
    lemma_tm(p, -36, 2, 1, 1, 2, 1, 1, 1, -6, 0, 1, 1, 1, 0, 1, 0);
    assert(t14 * s5 == (216) * mn(p, 2, 2, 2, 3, 1, 2, 1));
    lemma_tm(p, -36, 2, 1, 1, 2, 1, 1, 1, 1, 0, 1, 1, 0, 2, 0, 0);
    assert(t14 * s6 == (-36) * mn(p, 2, 2, 2, 2, 3, 1, 1));
    lemma_tm(p, -36, 2, 1, 1, 2, 1, 1, 1, 3, 0, 1, 1, 0, 0, 2, 1);
    assert(t14 * s7 == (-108) * mn(p, 2, 2, 2, 2, 1, 3, 2));
    lemma_tm(p, -36, 2, 1, 1, 2, 1, 1, 1, -3, 0, 0, 2, 1, 1, 0, 0);
    assert(t14 * s8 == (108) * mn(p, 2, 1, 3, 3, 2, 1, 1));
    lemma_tm(p, -36, 2, 1, 1, 2, 1, 1, 1, 3, 0, 0, 2, 0, 1, 1, 1);
    assert(t14 * s9 == (-108) * mn(p, 2, 1, 3, 2, 2, 2, 2));
    assert(t14 * q == (-108) * mn(p, 4, 1, 1, 3, 2, 1, 1) + (-108) * mn(p, 3, 2, 1, 4, 1, 1, 1) + (108) * mn(p, 3, 2, 1, 2, 1, 3, 1) + (216) * mn(p, 3, 1, 2, 2, 2, 2, 1) + (-36) * mn(p, 2, 3, 1, 2, 2, 2, 1) + (216) * mn(p, 2, 2, 2, 3, 1, 2, 1) + (-36) * mn(p, 2, 2, 2, 2, 3, 1, 1) + (-108) * mn(p, 2, 2, 2, 2, 1, 3, 2) + (108) * mn(p, 2, 1, 3, 3, 2, 1, 1) + (-108) * mn(p, 2, 1, 3, 2, 2, 2, 2));
    lemma_tm(p, -45, 2, 1, 1, 1, 1, 2, 0, 3, 2, 0, 0, 1, 1, 0, 0);
    assert(t15 * s0 == (-135) * mn(p, 4, 1, 1, 2, 2, 2, 0));
    lemma_tm(p, -45, 2, 1, 1, 1, 1, 2, 0, 3, 1, 1, 0, 2, 0, 0, 0);
    assert(t15 * s1 == (-135) * mn(p, 3, 2, 1, 3, 1, 2, 0));
    lemma_tm(p, -45, 2, 1, 1, 1, 1, 2, 0, -3, 1, 1, 0, 0, 0, 2, 0);
    assert(t15 * s2 == (135) * mn(p, 3, 2, 1, 1, 1, 4, 0));
    lemma_tm(p, -45, 2, 1, 1, 1, 1, 2, 0, -6, 1, 0, 1, 0, 1, 1, 0);
    assert(t15 * s3 == (270) * mn(p, 3, 1, 2, 1, 2, 3, 0));
    lemma_tm(p, -45, 2, 1, 1, 1, 1, 2, 0, 1, 0, 2, 0, 0, 1, 1, 0);
    assert(t15 * s4 == (-45) * mn(p, 2, 3, 1, 1, 2, 3, 0));
    lemma_tm(p, -45, 2, 1, 1, 1, 1, 2, 0, -6, 0, 1, 1, 1, 0, 1, 0);
    assert(t15 * s5 == (270) * mn(p, 2, 2, 2, 2, 1, 3, 0));
    lemma_tm(p, -45, 2, 1, 1, 1, 1, 2, 0, 1, 0, 1, 1, 0, 2, 0, 0);
    assert(t15 * s6 == (-45) * mn(p, 2, 2, 2, 1, 3, 2, 0));
    lemma_tm(p, -45, 2, 1, 1, 1, 1, 2, 0, 3, 0, 1, 1, 0, 0, 2, 1);
    assert(t15 * s7 == (-135) * mn(p, 2, 2, 2, 1, 1, 4, 1));
    lemma_tm(p, -45, 2, 1, 1, 1, 1, 2, 0, -3, 0, 0, 2, 1, 1, 0, 0);
    assert(t15 * s8 == (135) * mn(p, 2, 1, 3, 2, 2, 2, 0));
    lemma_tm(p, -45, 2, 1, 1, 1, 1, 2, 0, 3, 0, 0, 2, 0, 1, 1, 1);
    assert(t15 * s9 == (-135) * mn(p, 2, 1, 3, 1, 2, 3, 1));
    assert(t15 * q == (-135) * mn(p, 4, 1, 1, 2, 2, 2, 0) + (-135) * mn(p, 3, 2, 1, 3, 1, 2, 0) + (135) * mn(p, 3, 2, 1, 1, 1, 4, 0) + (270) * mn(p, 3, 1, 2, 1, 2, 3, 0) + (-45) * mn(p, 2, 3, 1, 1, 2, 3, 0) + (270) * mn(p, 2, 2, 2, 2, 1, 3, 0) + (-45) * mn(p, 2, 2, 2, 1, 3, 2, 0) + (-135) * mn(p, 2, 2, 2, 1, 1, 4, 1) + (135) * mn(p, 2, 1, 3, 2, 2, 2, 0) + (-135) * mn(p, 2, 1, 3, 1, 2, 3, 1));
    lemma_tm(p, -3, 2, 1, 1, 0, 3, 1, 0, 3, 2, 0, 0, 1, 1, 0, 0);
    assert(t16 * s0 == (-9) * mn(p, 4, 1, 1, 1, 4, 1, 0));
    lemma_tm(p, -3, 2, 1, 1, 0, 3, 1, 0, 3, 1, 1, 0, 2, 0, 0, 0);
    assert(t16 * s1 == (-9) * mn(p, 3, 2, 1, 2, 3, 1, 0));
    lemma_tm(p, -3, 2, 1, 1, 0, 3, 1, 0, -3, 1, 1, 0, 0, 0, 2, 0);
    assert(t16 * s2 == (9) * mn(p, 3, 2, 1, 0, 3, 3, 0));
    lemma_tm(p, -3, 2, 1, 1, 0, 3, 1, 0, -6, 1, 0, 1, 0, 1, 1, 0);
    assert(t16 * s3 == (18) * mn(p, 3, 1, 2, 0, 4, 2, 0));
    lemma_tm(p, -3, 2, 1, 1, 0, 3, 1, 0, 1, 0, 2, 0, 0, 1, 1, 0);
    assert(t16 * s4 == (-3) * mn(p, 2, 3, 1, 0, 4, 2, 0));
    lemma_tm(p, -3, 2, 1, 1, 0, 3, 1, 0, -6, 0, 1, 1, 1, 0, 1, 0);
    assert(t16 * s5 == (18) * mn(p, 2, 2, 2, 1, 3, 2, 0));
    lemma_tm(p, -3, 2, 1, 1, 0, 3, 1, 0, 1, 0, 1, 1, 0, 2, 0, 0);
    assert(t16 * s6 == (-3) * mn(p, 2, 2, 2, 0, 5, 1, 0));
    lemma_tm(p, -3, 2, 1, 1, 0, 3, 1, 0, 3, 0, 1, 1, 0, 0, 2, 1);
    assert(t16 * s7 == (-9) * mn(p, 2, 2, 2, 0, 3, 3, 1));
    lemma_tm(p, -3, 2, 1, 1, 0, 3, 1, 0, -3, 0, 0, 2, 1, 1, 0, 0);
    assert(t16 * s8 == (9) * mn(p, 2, 1, 3, 1, 4, 1, 0));
    lemma_tm(p, -3, 2, 1, 1, 0, 3, 1, 0, 3, 0, 0, 2, 0, 1, 1, 1);
    assert(t16 * s9 == (-9) * mn(p, 2, 1, 3, 0, 4, 2, 1));
    assert(t16 * q == (-9) * mn(p, 4, 1, 1, 1, 4, 1, 0) + (-9) * mn(p, 3, 2, 1, 2, 3, 1, 0) + (9) * mn(p, 3, 2, 1, 0, 3, 3, 0) + (18) * mn(p, 3, 1, 2, 0, 4, 2, 0) + (-3) * mn(p, 2, 3, 1, 0, 4, 2, 0) + (18) * mn(p, 2, 2, 2, 1, 3, 2, 0) + (-3) * mn(p, 2, 2, 2, 0, 5, 1, 0) + (-9) * mn(p, 2, 2, 2, 0, 3, 3, 1) + (9) * mn(p, 2, 1, 3, 1, 4, 1, 0) + (-9) * mn(p, 2, 1, 3, 0, 4, 2, 1));
    lemma_tm(p, 45, 2, 1, 1, 0, 1, 3, 1, 3, 2, 0, 0, 1, 1, 0, 0);
    assert(t17 * s0 == (135) * mn(p, 4, 1, 1, 1, 2, 3, 1));
    lemma_tm(p, 45, 2, 1, 1, 0, 1, 3, 1, 3, 1, 1, 0, 2, 0, 0, 0);
    assert(t17 * s1 == (135) * mn(p, 3, 2, 1, 2, 1, 3, 1));
    lemma_tm(p, 45, 2, 1, 1, 0, 1, 3, 1, -3, 1, 1, 0, 0, 0, 2, 0);
    assert(t17 * s2 == (-135) * mn(p, 3, 2, 1, 0, 1, 5, 1));
    lemma_tm(p, 45, 2, 1, 1, 0, 1, 3, 1, -6, 1, 0, 1, 0, 1, 1, 0);
    assert(t17 * s3 == (-270) * mn(p, 3, 1, 2, 0, 2, 4, 1));
    lemma_tm(p, 45, 2, 1, 1, 0, 1, 3, 1, 1, 0, 2, 0, 0, 1, 1, 0);
    assert(t17 * s4 == (45) * mn(p, 2, 3, 1, 0, 2, 4, 1));
    lemma_tm(p, 45, 2, 1, 1, 0, 1, 3, 1, -6, 0, 1, 1, 1, 0, 1, 0);
    assert(t17 * s5 == (-270) * mn(p, 2, 2, 2, 1, 1, 4, 1));
    lemma_tm(p, 45, 2, 1, 1, 0, 1, 3, 1, 1, 0, 1, 1, 0, 2, 0, 0);
    assert(t17 * s6 == (45) * mn(p, 2, 2, 2, 0, 3, 3, 1));
    lemma_tm(p, 45, 2, 1, 1, 0, 1, 3, 1, 3, 0, 1, 1, 0, 0, 2, 1);
    assert(t17 * s7 == (135) * mn(p, 2, 2, 2, 0, 1, 5, 2));
    lemma_tm(p, 45, 2, 1, 1, 0, 1, 3, 1, -3, 0, 0, 2, 1, 1, 0, 0);
    assert(t17 * s8 == (-135) * mn(p, 2, 1, 3, 1, 2, 3, 1));
    lemma_tm(p, 45, 2, 1, 1, 0, 1, 3, 1, 3, 0, 0, 2, 0, 1, 1, 1);
    assert(t17 * s9 == (135) * mn(p, 2, 1, 3, 0, 2, 4, 2));
    assert(t17 * q == (135) * mn(p, 4, 1, 1, 1, 2, 3, 1) + (135) * mn(p, 3, 2, 1, 2, 1, 3, 1) + (-135) * mn(p, 3, 2, 1, 0, 1, 5, 1) + (-270) * mn(p, 3, 1, 2, 0, 2, 4, 1) + (45) * mn(p, 2, 3, 1, 0, 2, 4, 1) + (-270) * mn(p, 2, 2, 2, 1, 1, 4, 1) + (45) * mn(p, 2, 2, 2, 0, 3, 3, 1) + (135) * mn(p, 2, 2, 2, 0, 1, 5, 2) + (-135) * mn(p, 2, 1, 3, 1, 2, 3, 1) + (135) * mn(p, 2, 1, 3, 0, 2, 4, 2));
    lemma_tm(p, -9, 2, 0, 2, 2, 2, 0, 1, 3, 2, 0, 0, 1, 1, 0, 0);
    assert(t18 * s0 == (-27) * mn(p, 4, 0, 2, 3, 3, 0, 1));
    lemma_tm(p, -9, 2, 0, 2, 2, 2, 0, 1, 3, 1, 1, 0, 2, 0, 0, 0);
    assert(t18 * s1 == (-27) * mn(p, 3, 1, 2, 4, 2, 0, 1));
    lemma_tm(p, -9, 2, 0, 2, 2, 2, 0, 1, -3, 1, 1, 0, 0, 0, 2, 0);
    assert(t18 * s2 == (27) * mn(p, 3, 1, 2, 2, 2, 2, 1));
    lemma_tm(p, -9, 2, 0, 2, 2, 2, 0, 1, -6, 1, 0, 1, 0, 1, 1, 0);
    assert(t18 * s3 == (54) * mn(p, 3, 0, 3, 2, 3, 1, 1));
    lemma_tm(p, -9, 2, 0, 2, 2, 2, 0, 1, 1, 0, 2, 0, 0, 1, 1, 0);
    assert(t18 * s4 == (-9) * mn(p, 2, 2, 2, 2, 3, 1, 1));
    lemma_tm(p, -9, 2, 0, 2, 2, 2, 0, 1, -6, 0, 1, 1, 1, 0, 1, 0);
    assert(t18 * s5 == (54) * mn(p, 2, 1, 3, 3, 2, 1, 1));
    lemma_tm(p, -9, 2, 0, 2, 2, 2, 0, 1, 1, 0, 1, 1, 0, 2, 0, 0);
    assert(t18 * s6 == (-9) * mn(p, 2, 1, 3, 2, 4, 0, 1));
    lemma_tm(p, -9, 2, 0, 2, 2, 2, 0, 1, 3, 0, 1, 1, 0, 0, 2, 1);
    assert(t18 * s7 == (-27) * mn(p, 2, 1, 3, 2, 2, 2, 2));
    lemma_tm(p, -9, 2, 0, 2, 2, 2, 0, 1, -3, 0, 0, 2, 1, 1, 0, 0);
    assert(t18 * s8 == (27) * mn(p, 2, 0, 4, 3, 3, 0, 1));
    lemma_tm(p, -9, 2, 0, 2, 2, 2, 0, 1, 3, 0, 0, 2, 0, 1, 1, 1);
    assert(t18 * s9 == (-27) * mn(p, 2, 0, 4, 2, 3, 1, 2));
    assert(t18 * q == (-27) * mn(p, 4, 0, 2, 3, 3, 0, 1) + (-27) * mn(p, 3, 1, 2, 4, 2, 0, 1) + (27) * mn(p, 3, 1, 2, 2, 2, 2, 1) + (54) * mn(p, 3, 0, 3, 2, 3, 1, 1) + (-9) * mn(p, 2, 2, 2, 2, 3, 1, 1) + (54) * mn(p, 2, 1, 3, 3, 2, 1, 1) + (-9) * mn(p, 2, 1, 3, 2, 4, 0, 1) + (-27) * mn(p, 2, 1, 3, 2, 2, 2, 2) + (27) * mn(p, 2, 0, 4, 3, 3, 0, 1) + (-27) * mn(p, 2, 0, 4, 2, 3, 1, 2));
    lemma_tm(p, -18, 2, 0, 2, 1, 2, 1, 0, 3, 2, 0, 0, 1, 1, 0, 0);
    assert(t19 * s0 == (-54) * mn(p, 4, 0, 2, 2, 3, 1, 0));
    lemma_tm(p, -18, 2, 0, 2, 1, 2, 1, 0, 3, 1, 1, 0, 2, 0, 0, 0);
    assert(t19 * s1 == (-54) * mn(p, 3, 1, 2, 3, 2, 1, 0));
    lemma_tm(p, -18, 2, 0, 2, 1, 2, 1, 0, -3, 1, 1, 0, 0, 0, 2, 0);
    assert(t19 * s2 == (54) * mn(p, 3, 1, 2, 1, 2, 3, 0));
    lemma_tm(p, -18, 2, 0, 2, 1, 2, 1, 0, -6, 1, 0, 1, 0, 1, 1, 0);
    assert(t19 * s3 == (108) * mn(p, 3, 0, 3, 1, 3, 2, 0));
    lemma_tm(p, -18, 2, 0, 2, 1, 2, 1, 0, 1, 0, 2, 0, 0, 1, 1, 0);
    assert(t19 * s4 == (-18) * mn(p, 2, 2, 2, 1, 3, 2, 0));
    lemma_tm(p, -18, 2, 0, 2, 1, 2, 1, 0, -6, 0, 1, 1, 1, 0, 1, 0);
    assert(t19 * s5 == (108) * mn(p, 2, 1, 3, 2, 2, 2, 0));
    lemma_tm(p, -18, 2, 0, 2, 1, 2, 1, 0, 1, 0, 1, 1, 0, 2, 0, 0);
    assert(t19 * s6 == (-18) * mn(p, 2, 1, 3, 1, 4, 1, 0));
    lemma_tm(p, -18, 2, 0, 2, 1, 2, 1, 0, 3, 0, 1, 1, 0, 0, 2, 1);
    assert(t19 * s7 == (-54) * mn(p, 2, 1, 3, 1, 2, 3, 1));
    lemma_tm(p, -18, 2, 0, 2, 1, 2, 1, 0, -3, 0, 0, 2, 1, 1, 0, 0);
    assert(t19 * s8 == (54) * mn(p, 2, 0, 4, 2, 3, 1, 0));
    lemma_tm(p, -18, 2, 0, 2, 1, 2, 1, 0, 3, 0, 0, 2, 0, 1, 1, 1);
    assert(t19 * s9 == (-54) * mn(p, 2, 0, 4, 1, 3, 2, 1));
    assert(t19 * q == (-54) * mn(p, 4, 0, 2, 2, 3, 1, 0) + (-54) * mn(p, 3, 1, 2, 3, 2, 1, 0) + (54) * mn(p, 3, 1, 2, 1, 2, 3, 0) + (108) * mn(p, 3, 0, 3, 1, 3, 2, 0) + (-18) * mn(p, 2, 2, 2, 1, 3, 2, 0) + (108) * mn(p, 2, 1, 3, 2, 2, 2, 0) + (-18) * mn(p, 2, 1, 3, 1, 4, 1, 0) + (-54) * mn(p, 2, 1, 3, 1, 2, 3, 1) + (54) * mn(p, 2, 0, 4, 2, 3, 1, 0) + (-54) * mn(p, 2, 0, 4, 1, 3, 2, 1));
    lemma_tm(p, 45, 2, 0, 2, 0, 2, 2, 1, 3, 2, 0, 0, 1, 1, 0, 0);
    assert(t20 * s0 == (135) * mn(p, 4, 0, 2, 1, 3, 2, 1));
    lemma_tm(p, 45, 2, 0, 2, 0, 2, 2, 1, 3, 1, 1, 0, 2, 0, 0, 0);
    assert(t20 * s1 == (135) * mn(p, 3, 1, 2, 2, 2, 2, 1));
    lemma_tm(p, 45, 2, 0, 2, 0, 2, 2, 1, -3, 1, 1, 0, 0, 0, 2, 0);
    assert(t20 * s2 == (-135) * mn(p, 3, 1, 2, 0, 2, 4, 1));
    lemma_tm(p, 45, 2, 0, 2, 0, 2, 2, 1, -6, 1, 0, 1, 0, 1, 1, 0);
    assert(t20 * s3 == (-270) * mn(p, 3, 0, 3, 0, 3, 3, 1));
    lemma_tm(p, 45, 2, 0, 2, 0, 2, 2, 1, 1, 0, 2, 0, 0, 1, 1, 0);
    assert(t20 * s4 == (45) * mn(p, 2, 2, 2, 0, 3, 3, 1));
    lemma_tm(p, 45, 2, 0, 2, 0, 2, 2, 1, -6, 0, 1, 1, 1, 0, 1, 0);
    assert(t20 * s5 == (-270) * mn(p, 2, 1, 3, 1, 2, 3, 1));
    lemma_tm(p, 45, 2, 0, 2, 0, 2, 2, 1, 1, 0, 1, 1, 0, 2, 0, 0);
    assert(t20 * s6 == (45) * mn(p, 2, 1, 3, 0, 4, 2, 1));
    lemma_tm(p, 45, 2, 0, 2, 0, 2, 2, 1, 3, 0, 1, 1, 0, 0, 2, 1);
    assert(t20 * s7 == (135) * mn(p, 2, 1, 3, 0, 2, 4, 2));
    lemma_tm(p, 45, 2, 0, 2, 0, 2, 2, 1, -3, 0, 0, 2, 1, 1, 0, 0);
    assert(t20 * s8 == (-135) * mn(p, 2, 0, 4, 1, 3, 2, 1));
    lemma_tm(p, 45, 2, 0, 2, 0, 2, 2, 1, 3, 0, 0, 2, 0, 1, 1, 1);
    assert(t20 * s9 == (135) * mn(p, 2, 0, 4, 0, 3, 3, 2));
    assert(t20 * q == (135) * mn(p, 4, 0, 2, 1, 3, 2, 1) + (135) * mn(p, 3, 1, 2, 2, 2, 2, 1) + (-135) * mn(p, 3, 1, 2, 0, 2, 4, 1) + (-270) * mn(p, 3, 0, 3, 0, 3, 3, 1) + (45) * mn(p, 2, 2, 2, 0, 3, 3, 1) + (-270) * mn(p, 2, 1, 3, 1, 2, 3, 1) + (45) * mn(p, 2, 1, 3, 0, 4, 2, 1) + (135) * mn(p, 2, 1, 3, 0, 2, 4, 2) + (-135) * mn(p, 2, 0, 4, 1, 3, 2, 1) + (135) * mn(p, 2, 0, 4, 0, 3, 3, 2));
    lemma_tm(p, 3, 1, 3, 0, 3, 1, 0, 0, 3, 2, 0, 0, 1, 1, 0, 0);
    assert(t21 * s0 == (9) * mn(p, 3, 3, 0, 4, 2, 0, 0));
    lemma_tm(p, 3, 1, 3, 0, 3, 1, 0, 0, 3, 1, 1, 0, 2, 0, 0, 0);
    assert(t21 * s1 == (9) * mn(p, 2, 4, 0, 5, 1, 0, 0));
    lemma_tm(p, 3, 1, 3, 0, 3, 1, 0, 0, -3, 1, 1, 0, 0, 0, 2, 0);
    assert(t21 * s2 == (-9) * mn(p, 2, 4, 0, 3, 1, 2, 0));
    lemma_tm(p, 3, 1, 3, 0, 3, 1, 0, 0, -6, 1, 0, 1, 0, 1, 1, 0);
    assert(t21 * s3 == (-18) * mn(p, 2, 3, 1, 3, 2, 1, 0));
    lemma_tm(p, 3, 1, 3, 0, 3, 1, 0, 0, 1, 0, 2, 0, 0, 1, 1, 0);
    assert(t21 * s4 == (3) * mn(p, 1, 5, 0, 3, 2, 1, 0));
    lemma_tm(p, 3, 1, 3, 0, 3, 1, 0, 0, -6, 0, 1, 1, 1, 0, 1, 0);
    assert(t21 * s5 == (-18) * mn(p, 1, 4, 1, 4, 1, 1, 0));
    lemma_tm(p, 3, 1, 3, 0, 3, 1, 0, 0, 1, 0, 1, 1, 0, 2, 0, 0);
    assert(t21 * s6 == (3) * mn(p, 1, 4, 1, 3, 3, 0, 0));
    lemma_tm(p, 3, 1, 3, 0, 3, 1, 0, 0, 3, 0, 1, 1, 0, 0, 2, 1);
    assert(t21 * s7 == (9) * mn(p, 1, 4, 1, 3, 1, 2, 1));
    lemma_tm(p, 3, 1, 3, 0, 3, 1, 0, 0, -3, 0, 0, 2, 1, 1, 0, 0);
    assert(t21 * s8 == (-9) * mn(p, 1, 3, 2, 4, 2, 0, 0));
    lemma_tm(p, 3, 1, 3, 0, 3, 1, 0, 0, 3, 0, 0, 2, 0, 1, 1, 1);
    assert(t21 * s9 == (9) * mn(p, 1, 3, 2, 3, 2, 1, 1));
    assert(t21 * q == (9) * mn(p, 3, 3, 0, 4, 2, 0, 0) + (9) * mn(p, 2, 4, 0, 5, 1, 0, 0) + (-9) * mn(p, 2, 4, 0, 3, 1, 2, 0) + (-18) * mn(p, 2, 3, 1, 3, 2, 1, 0) + (3) * mn(p, 1, 5, 0, 3, 2, 1, 0) + (-18) * mn(p, 1, 4, 1, 4, 1, 1, 0) + (3) * mn(p, 1, 4, 1, 3, 3, 0, 0) + (9) * mn(p, 1, 4, 1, 3, 1, 2, 1) + (-9) * mn(p, 1, 3, 2, 4, 2, 0, 0) + (9) * mn(p, 1, 3, 2, 3, 2, 1, 1));
    lemma_tm(p, 3, 1, 3, 0, 1, 1, 2, 0, 3, 2, 0, 0, 1, 1, 0, 0);
    assert(t22 * s0 == (9) * mn(p, 3, 3, 0, 2, 2, 2, 0));
    lemma_tm(p, 3, 1, 3, 0, 1, 1, 2, 0, 3, 1, 1, 0, 2, 0, 0, 0);
    assert(t22 * s1 == (9) * mn(p, 2, 4, 0, 3, 1, 2, 0));
    lemma_tm(p, 3, 1, 3, 0, 1, 1, 2, 0, -3, 1, 1, 0, 0, 0, 2, 0);
    assert(t22 * s2 == (-9) * mn(p, 2, 4, 0, 1, 1, 4, 0));
    lemma_tm(p, 3, 1, 3, 0, 1, 1, 2, 0, -6, 1, 0, 1, 0, 1, 1, 0);
    assert(t22 * s3 == (-18) * mn(p, 2, 3, 1, 1, 2, 3, 0));
    lemma_tm(p, 3, 1, 3, 0, 1, 1, 2, 0, 1, 0, 2, 0, 0, 1, 1, 0);
    assert(t22 * s4 == (3) * mn(p, 1, 5, 0, 1, 2, 3, 0));
    lemma_tm(p, 3, 1, 3, 0, 1, 1, 2, 0, -6, 0, 1, 1, 1, 0, 1, 0);
    assert(t22 * s5 == (-18) * mn(p, 1, 4, 1, 2, 1, 3, 0));
    lemma_tm(p, 3, 1, 3, 0, 1, 1, 2, 0, 1, 0, 1, 1, 0, 2, 0, 0);
    assert(t22 * s6 == (3) * mn(p, 1, 4, 1, 1, 3, 2, 0));
    lemma_tm(p, 3, 1, 3, 0, 1, 1, 2, 0, 3, 0, 1, 1, 0, 0, 2, 1);
    assert(t22 * s7 == (9) * mn(p, 1, 4, 1, 1, 1, 4, 1));
    lemma_tm(p, 3, 1, 3, 0, 1, 1, 2, 0, -3, 0, 0, 2, 1, 1, 0, 0);
    assert(t22 * s8 == (-9) * mn(p, 1, 3, 2, 2, 2, 2, 0));
    lemma_tm(p, 3, 1, 3, 0, 1, 1, 2, 0, 3, 0, 0, 2, 0, 1, 1, 1);
    assert(t22 * s9 == (9) * mn(p, 1, 3, 2, 1, 2, 3, 1));
    assert(t22 * q == (9) * mn(p, 3, 3, 0, 2, 2, 2, 0) + (9) * mn(p, 2, 4, 0, 3, 1, 2, 0) + (-9) * mn(p, 2, 4, 0, 1, 1, 4, 0) + (-18) * mn(p, 2, 3, 1, 1, 2, 3, 0) + (3) * mn(p, 1, 5, 0, 1, 2, 3, 0) + (-18) * mn(p, 1, 4, 1, 2, 1, 3, 0) + (3) * mn(p, 1, 4, 1, 1, 3, 2, 0) + (9) * mn(p, 1, 4, 1, 1, 1, 4, 1) + (-9) * mn(p, 1, 3, 2, 2, 2, 2, 0) + (9) * mn(p, 1, 3, 2, 1, 2, 3, 1));
    lemma_tm(p, 1, 1, 3, 0, 0, 3, 1, 0, 3, 2, 0, 0, 1, 1, 0, 0);
    assert(t23 * s0 == (3) * mn(p, 3, 3, 0, 1, 4, 1, 0));
    lemma_tm(p, 1, 1, 3, 0, 0, 3, 1, 0, 3, 1, 1, 0, 2, 0, 0, 0);
    assert(t23 * s1 == (3) * mn(p, 2, 4, 0, 2, 3, 1, 0));
    lemma_tm(p, 1, 1, 3, 0, 0, 3, 1, 0, -3, 1, 1, 0, 0, 0, 2, 0);
    assert(t23 * s2 == (-3) * mn(p, 2, 4, 0, 0, 3, 3, 0));
    lemma_tm(p, 1, 1, 3, 0, 0, 3, 1, 0, -6, 1, 0, 1, 0, 1, 1, 0);
    assert(t23 * s3 == (-6) * mn(p, 2, 3, 1, 0, 4, 2, 0));
    lemma_tm(p, 1, 1, 3, 0, 0, 3, 1, 0, 1, 0, 2, 0, 0, 1, 1, 0);
    assert(t23 * s4 == (1) * mn(p, 1, 5, 0, 0, 4, 2, 0));
    lemma_tm(p, 1, 1, 3, 0, 0, 3, 1, 0, -6, 0, 1, 1, 1, 0, 1, 0);
    assert(t23 * s5 == (-6) * mn(p, 1, 4, 1, 1, 3, 2, 0));
    lemma_tm(p, 1, 1, 3, 0, 0, 3, 1, 0, 1, 0, 1, 1, 0, 2, 0, 0);
    assert(t23 * s6 == (1) * mn(p, 1, 4, 1, 0, 5, 1, 0));
    lemma_tm(p, 1, 1, 3, 0, 0, 3, 1, 0, 3, 0, 1, 1, 0, 0, 2, 1);
    assert(t23 * s7 == (3) * mn(p, 1, 4, 1, 0, 3, 3, 1));
    lemma_tm(p, 1, 1, 3, 0, 0, 3, 1, 0, -3, 0, 0, 2, 1, 1, 0, 0);
    assert(t23 * s8 == (-3) * mn(p, 1, 3, 2, 1, 4, 1, 0));
    lemma_tm(p, 1, 1, 3, 0, 0, 3, 1, 0, 3, 0, 0, 2, 0, 1, 1, 1);
    assert(t23 * s9 == (3) * mn(p, 1, 3, 2, 0, 4, 2, 1));
    assert(t23 * q == (3) * mn(p, 3, 3, 0, 1, 4, 1, 0) + (3) * mn(p, 2, 4, 0, 2, 3, 1, 0) + (-3) * mn(p, 2, 4, 0, 0, 3, 3, 0) + (-6) * mn(p, 2, 3, 1, 0, 4, 2, 0) + (1) * mn(p, 1, 5, 0, 0, 4, 2, 0) + (-6) * mn(p, 1, 4, 1, 1, 3, 2, 0) + (1) * mn(p, 1, 4, 1, 0, 5, 1, 0) + (3) * mn(p, 1, 4, 1, 0, 3, 3, 1) + (-3) * mn(p, 1, 3, 2, 1, 4, 1, 0) + (3) * mn(p, 1, 3, 2, 0, 4, 2, 1));
    lemma_tm(p, -3, 1, 3, 0, 0, 1, 3, 1, 3, 2, 0, 0, 1, 1, 0, 0);
    assert(t24 * s0 == (-9) * mn(p, 3, 3, 0, 1, 2, 3, 1));
    lemma_tm(p, -3, 1, 3, 0, 0, 1, 3, 1, 3, 1, 1, 0, 2, 0, 0, 0);
    assert(t24 * s1 == (-9) * mn(p, 2, 4, 0, 2, 1, 3, 1));
    lemma_tm(p, -3, 1, 3, 0, 0, 1, 3, 1, -3, 1, 1, 0, 0, 0, 2, 0);
    assert(t24 * s2 == (9) * mn(p, 2, 4, 0, 0, 1, 5, 1));
    lemma_tm(p, -3, 1, 3, 0, 0, 1, 3, 1, -6, 1, 0, 1, 0, 1, 1, 0);
    assert(t24 * s3 == (18) * mn(p, 2, 3, 1, 0, 2, 4, 1));
    lemma_tm(p, -3, 1, 3, 0, 0, 1, 3, 1, 1, 0, 2, 0, 0, 1, 1, 0);
    assert(t24 * s4 == (-3) * mn(p, 1, 5, 0, 0, 2, 4, 1));
    lemma_tm(p, -3, 1, 3, 0, 0, 1, 3, 1, -6, 0, 1, 1, 1, 0, 1, 0);
    assert(t24 * s5 == (18) * mn(p, 1, 4, 1, 1, 1, 4, 1));
    lemma_tm(p, -3, 1, 3, 0, 0, 1, 3, 1, 1, 0, 1, 1, 0, 2, 0, 0);
    assert(t24 * s6 == (-3) * mn(p, 1, 4, 1, 0, 3, 3, 1));
    lemma_tm(p, -3, 1, 3, 0, 0, 1, 3, 1, 3, 0, 1, 1, 0, 0, 2, 1);
    assert(t24 * s7 == (-9) * mn(p, 1, 4, 1, 0, 1, 5, 2));
    lemma_tm(p, -3, 1, 3, 0, 0, 1, 3, 1, -3, 0, 0, 2, 1, 1, 0, 0);
    assert(t24 * s8 == (9) * mn(p, 1, 3, 2, 1, 2, 3, 1));
    lemma_tm(p, -3, 1, 3, 0, 0, 1, 3, 1, 3, 0, 0, 2, 0, 1, 1, 1);
    assert(t24 * s9 == (-9) * mn(p, 1, 3, 2, 0, 2, 4, 2));
    assert(t24 * q == (-9) * mn(p, 3, 3, 0, 1, 2, 3, 1) + (-9) * mn(p, 2, 4, 0, 2, 1, 3, 1) + (9) * mn(p, 2, 4, 0, 0, 1, 5, 1) + (18) * mn(p, 2, 3, 1, 0, 2, 4, 1) + (-3) * mn(p, 1, 5, 0, 0, 2, 4, 1) + (18) * mn(p, 1, 4, 1, 1, 1, 4, 1) + (-3) * mn(p, 1, 4, 1, 0, 3, 3, 1) + (-9) * mn(p, 1, 4, 1, 0, 1, 5, 2) + (9) * mn(p, 1, 3, 2, 1, 2, 3, 1) + (-9) * mn(p, 1, 3, 2, 0, 2, 4, 2));
    lemma_tm(p, 9, 1, 2, 1, 4, 0, 0, 0, 3, 2, 0, 0, 1, 1, 0, 0);
    assert(t25 * s0 == (27) * mn(p, 3, 2, 1, 5, 1, 0, 0));
    lemma_tm(p, 9, 1, 2, 1, 4, 0, 0, 0, 3, 1, 1, 0, 2, 0, 0, 0);
    assert(t25 * s1 == (27) * mn(p, 2, 3, 1, 6, 0, 0, 0));
    lemma_tm(p, 9, 1, 2, 1, 4, 0, 0, 0, -3, 1, 1, 0, 0, 0, 2, 0);
    assert(t25 * s2 == (-27) * mn(p, 2, 3, 1, 4, 0, 2, 0));
    lemma_tm(p, 9, 1, 2, 1, 4, 0, 0, 0, -6, 1, 0, 1, 0, 1, 1, 0);
    assert(t25 * s3 == (-54) * mn(p, 2, 2, 2, 4, 1, 1, 0));
    lemma_tm(p, 9, 1, 2, 1, 4, 0, 0, 0, 1, 0, 2, 0, 0, 1, 1, 0);
    assert(t25 * s4 == (9) * mn(p, 1, 4, 1, 4, 1, 1, 0));
    lemma_tm(p, 9, 1, 2, 1, 4, 0, 0, 0, -6, 0, 1, 1, 1, 0, 1, 0);
    assert(t25 * s5 == (-54) * mn(p, 1, 3, 2, 5, 0, 1, 0));
    lemma_tm(p, 9, 1, 2, 1, 4, 0, 0, 0, 1, 0, 1, 1, 0, 2, 0, 0);
    assert(t25 * s6 == (9) * mn(p, 1, 3, 2, 4, 2, 0, 0));
    lemma_tm(p, 9, 1, 2, 1, 4, 0, 0, 0, 3, 0, 1, 1, 0, 0, 2, 1);
    assert(t25 * s7 == (27) * mn(p, 1, 3, 2, 4, 0, 2, 1));
    lemma_tm(p, 9, 1, 2, 1, 4, 0, 0, 0, -3, 0, 0, 2, 1, 1, 0, 0);
    assert(t25 * s8 == (-27) * mn(p, 1, 2, 3, 5, 1, 0, 0));
    lemma_tm(p, 9, 1, 2, 1, 4, 0, 0, 0, 3, 0, 0, 2, 0, 1, 1, 1);
    assert(t25 * s9 == (27) * mn(p, 1, 2, 3, 4, 1, 1, 1));
    assert(t25 * q == (27) * mn(p, 3, 2, 1, 5, 1, 0, 0) + (27) * mn(p, 2, 3, 1, 6, 0, 0, 0) + (-27) * mn(p, 2, 3, 1, 4, 0, 2, 0) + (-54) * mn(p, 2, 2, 2, 4, 1, 1, 0) + (9) * mn(p, 1, 4, 1, 4, 1, 1, 0) + (-54) * mn(p, 1, 3, 2, 5, 0, 1, 0) + (9) * mn(p, 1, 3, 2, 4, 2, 0, 0) + (27) * mn(p, 1, 3, 2, 4, 0, 2, 1) + (-27) * mn(p, 1, 2, 3, 5, 1, 0, 0) + (27) * mn(p, 1, 2, 3, 4, 1, 1, 1));
    lemma_tm(p, -18, 1, 2, 1, 3, 0, 1, 1, 3, 2, 0, 0, 1, 1, 0, 0);
    assert(t26 * s0 == (-54) * mn(p, 3, 2, 1, 4, 1, 1, 1));
    lemma_tm(p, -18, 1, 2, 1, 3, 0, 1, 1, 3, 1, 1, 0, 2, 0, 0, 0);
    assert(t26 * s1 == (-54) * mn(p, 2, 3, 1, 5, 0, 1, 1));
    lemma_tm(p, -18, 1, 2, 1, 3, 0, 1, 1, -3, 1, 1, 0, 0, 0, 2, 0);
    assert(t26 * s2 == (54) * mn(p, 2, 3, 1, 3, 0, 3, 1));
    lemma_tm(p, -18, 1, 2, 1, 3, 0, 1, 1, -6, 1, 0, 1, 0, 1, 1, 0);
    assert(t26 * s3 == (108) * mn(p, 2, 2, 2, 3, 1, 2, 1));
    lemma_tm(p, -18, 1, 2, 1, 3, 0, 1, 1, 1, 0, 2, 0, 0, 1, 1, 0);
    assert(t26 * s4 == (-18) * mn(p, 1, 4, 1, 3, 1, 2, 1));
    lemma_tm(p, -18, 1, 2, 1, 3, 0, 1, 1, -6, 0, 1, 1, 1, 0, 1, 0);
    assert(t26 * s5 == (108) * mn(p, 1, 3, 2, 4, 0, 2, 1));
    lemma_tm(p, -18, 1, 2, 1, 3, 0, 1, 1, 1, 0, 1, 1, 0, 2, 0, 0);
    assert(t26 * s6 == (-18) * mn(p, 1, 3, 2, 3, 2, 1, 1));
    lemma_tm(p, -18, 1, 2, 1, 3, 0, 1, 1, 3, 0, 1, 1, 0, 0, 2, 1);
    assert(t26 * s7 == (-54) * mn(p, 1, 3, 2, 3, 0, 3, 2));
    lemma_tm(p, -18, 1, 2, 1, 3, 0, 1, 1, -3, 0, 0, 2, 1, 1, 0, 0);
    assert(t26 * s8 == (54) * mn(p, 1, 2, 3, 4, 1, 1, 1));
    lemma_tm(p, -18, 1, 2, 1, 3, 0, 1, 1, 3, 0, 0, 2, 0, 1, 1, 1);
    assert(t26 * s9 == (-54) * mn(p, 1, 2, 3, 3, 1, 2, 2));
    assert(t26 * q == (-54) * mn(p, 3, 2, 1, 4, 1, 1, 1) + (-54) * mn(p, 2, 3, 1, 5, 0, 1, 1) + (54) * mn(p, 2, 3, 1, 3, 0, 3, 1) + (108) * mn(p, 2, 2, 2, 3, 1, 2, 1) + (-18) * mn(p, 1, 4, 1, 3, 1, 2, 1) + (108) * mn(p, 1, 3, 2, 4, 0, 2, 1) + (-18) * mn(p, 1, 3, 2, 3, 2, 1, 1) + (-54) * mn(p, 1, 3, 2, 3, 0, 3, 2) + (54) * mn(p, 1, 2, 3, 4, 1, 1, 1) + (-54) * mn(p, 1, 2, 3, 3, 1, 2, 2));
    lemma_tm(p, -18, 1, 2, 1, 2, 0, 2, 0, 3, 2, 0, 0, 1, 1, 0, 0);
    assert(t27 * s0 == (-54) * mn(p, 3, 2, 1, 3, 1, 2, 0));
    lemma_tm(p, -18, 1, 2, 1, 2, 0, 2, 0, 3, 1, 1, 0, 2, 0, 0, 0);
    assert(t27 * s1 == (-54) * mn(p, 2, 3, 1, 4, 0, 2, 0));
    lemma_tm(p, -18, 1, 2, 1, 2, 0, 2, 0, -3, 1, 1, 0, 0, 0, 2, 0);
    assert(t27 * s2 == (54) * mn(p, 2, 3, 1, 2, 0, 4, 0));
    lemma_tm(p, -18, 1, 2, 1, 2, 0, 2, 0, -6, 1, 0, 1, 0, 1, 1, 0);
    assert(t27 * s3 == (108) * mn(p, 2, 2, 2, 2, 1, 3, 0));
    lemma_tm(p, -18, 1, 2, 1, 2, 0, 2, 0, 1, 0, 2, 0, 0, 1, 1, 0);
    assert(t27 * s4 == (-18) * mn(p, 1, 4, 1, 2, 1, 3, 0));
    lemma_tm(p, -18, 1, 2, 1, 2, 0, 2, 0, -6, 0, 1, 1, 1, 0, 1, 0);
    assert(t27 * s5 == (108) * mn(p, 1, 3, 2, 3, 0, 3, 0));
    lemma_tm(p, -18, 1, 2, 1, 2, 0, 2, 0, 1, 0, 1, 1, 0, 2, 0, 0);
    assert(t27 * s6 == (-18) * mn(p, 1, 3, 2, 2, 2, 2, 0));
    lemma_tm(p, -18, 1, 2, 1, 2, 0, 2, 0, 3, 0, 1, 1, 0, 0, 2, 1);
    assert(t27 * s7 == (-54) * mn(p, 1, 3, 2, 2, 0, 4, 1));
    lemma_tm(p, -18, 1, 2, 1, 2, 0, 2, 0, -3, 0, 0, 2, 1, 1, 0, 0);
    assert(t27 * s8 == (54) * mn(p, 1, 2, 3, 3, 1, 2, 0));
    lemma_tm(p, -18, 1, 2, 1, 2, 0, 2, 0, 3, 0, 0, 2, 0, 1, 1, 1);
    assert(t27 * s9 == (-54) * mn(p, 1, 2, 3, 2, 1, 3, 1));
    assert(t27 * q == (-54) * mn(p, 3, 2, 1, 3, 1, 2, 0) + (-54) * mn(p, 2, 3, 1, 4, 0, 2, 0) + (54) * mn(p, 2, 3, 1, 2, 0, 4, 0) + (108) * mn(p, 2, 2, 2, 2, 1, 3, 0) + (-18) * mn(p, 1, 4, 1, 2, 1, 3, 0) + (108) * mn(p, 1, 3, 2, 3, 0, 3, 0) + (-18) * mn(p, 1, 3, 2, 2, 2, 2, 0) + (-54) * mn(p, 1, 3, 2, 2, 0, 4, 1) + (54) * mn(p, 1, 2, 3, 3, 1, 2, 0) + (-54) * mn(p, 1, 2, 3, 2, 1, 3, 1));
    lemma_tm(p, 54, 1, 2, 1, 1, 0, 3, 1, 3, 2, 0, 0, 1, 1, 0, 0);
    assert(t28 * s0 == (162) * mn(p, 3, 2, 1, 2, 1, 3, 1));
    lemma_tm(p, 54, 1, 2, 1, 1, 0, 3, 1, 3, 1, 1, 0, 2, 0, 0, 0);
    assert(t28 * s1 == (162) * mn(p, 2, 3, 1, 3, 0, 3, 1));
    lemma_tm(p, 54, 1, 2, 1, 1, 0, 3, 1, -3, 1, 1, 0, 0, 0, 2, 0);
    assert(t28 * s2 == (-162) * mn(p, 2, 3, 1, 1, 0, 5, 1));
    lemma_tm(p, 54, 1, 2, 1, 1, 0, 3, 1, -6, 1, 0, 1, 0, 1, 1, 0);
    assert(t28 * s3 == (-324) * mn(p, 2, 2, 2, 1, 1, 4, 1));
    lemma_tm(p, 54, 1, 2, 1, 1, 0, 3, 1, 1, 0, 2, 0, 0, 1, 1, 0);
    assert(t28 * s4 == (54) * mn(p, 1, 4, 1, 1, 1, 4, 1));
    lemma_tm(p, 54, 1, 2, 1, 1, 0, 3, 1, -6, 0, 1, 1, 1, 0, 1, 0);
    assert(t28 * s5 == (-324) * mn(p, 1, 3, 2, 2, 0, 4, 1));
    lemma_tm(p, 54, 1, 2, 1, 1, 0, 3, 1, 1, 0, 1, 1, 0, 2, 0, 0);
    assert(t28 * s6 == (54) * mn(p, 1, 3, 2, 1, 2, 3, 1));
    lemma_tm(p, 54, 1, 2, 1, 1, 0, 3, 1, 3, 0, 1, 1, 0, 0, 2, 1);
    assert(t28 * s7 == (162) * mn(p, 1, 3, 2, 1, 0, 5, 2));
    lemma_tm(p, 54, 1, 2, 1, 1, 0, 3, 1, -3, 0, 0, 2, 1, 1, 0, 0);
    assert(t28 * s8 == (-162) * mn(p, 1, 2, 3, 2, 1, 3, 1));
    lemma_tm(p, 54, 1, 2, 1, 1, 0, 3, 1, 3, 0, 0, 2, 0, 1, 1, 1);
    assert(t28 * s9 == (162) * mn(p, 1, 2, 3, 1, 1, 4, 2));
    assert(t28 * q == (162) * mn(p, 3, 2, 1, 2, 1, 3, 1) + (162) * mn(p, 2, 3, 1, 3, 0, 3, 1) + (-162) * mn(p, 2, 3, 1, 1, 0, 5, 1) + (-324) * mn(p, 2, 2, 2, 1, 1, 4, 1) + (54) * mn(p, 1, 4, 1, 1, 1, 4, 1) + (-324) * mn(p, 1, 3, 2, 2, 0, 4, 1) + (54) * mn(p, 1, 3, 2, 1, 2, 3, 1) + (162) * mn(p, 1, 3, 2, 1, 0, 5, 2) + (-162) * mn(p, 1, 2, 3, 2, 1, 3, 1) + (162) * mn(p, 1, 2, 3, 1, 1, 4, 2));
    lemma_tm(p, 1, 1, 2, 1, 0, 4, 0, 0, 3, 2, 0, 0, 1, 1, 0, 0);
    assert(t29 * s0 == (3) * mn(p, 3, 2, 1, 1, 5, 0, 0));
    lemma_tm(p, 1, 1, 2, 1, 0, 4, 0, 0, 3, 1, 1, 0, 2, 0, 0, 0);
    assert(t29 * s1 == (3) * mn(p, 2, 3, 1, 2, 4, 0, 0));
    lemma_tm(p, 1, 1, 2, 1, 0, 4, 0, 0, -3, 1, 1, 0, 0, 0, 2, 0);
    assert(t29 * s2 == (-3) * mn(p, 2, 3, 1, 0, 4, 2, 0));
    lemma_tm(p, 1, 1, 2, 1, 0, 4, 0, 0, -6, 1, 0, 1, 0, 1, 1, 0);
    assert(t29 * s3 == (-6) * mn(p, 2, 2, 2, 0, 5, 1, 0));
    lemma_tm(p, 1, 1, 2, 1, 0, 4, 0, 0, 1, 0, 2, 0, 0, 1, 1, 0);
    assert(t29 * s4 == (1) * mn(p, 1, 4, 1, 0, 5, 1, 0));
    lemma_tm(p, 1, 1, 2, 1, 0, 4, 0, 0, -6, 0, 1, 1, 1, 0, 1, 0);
    assert(t29 * s5 == (-6) * mn(p, 1, 3, 2, 1, 4, 1, 0));
    lemma_tm(p, 1, 1, 2, 1, 0, 4, 0, 0, 1, 0, 1, 1, 0, 2, 0, 0);
    assert(t29 * s6 == (1) * mn(p, 1, 3, 2, 0, 6, 0, 0));
    lemma_tm(p, 1, 1, 2, 1, 0, 4, 0, 0, 3, 0, 1, 1, 0, 0, 2, 1);
    assert(t29 * s7 == (3) * mn(p, 1, 3, 2, 0, 4, 2, 1));
    lemma_tm(p, 1, 1, 2, 1, 0, 4, 0, 0, -3, 0, 0, 2, 1, 1, 0, 0);
    assert(t29 * s8 == (-3) * mn(p, 1, 2, 3, 1, 5, 0, 0));
    lemma_tm(p, 1, 1, 2, 1, 0, 4, 0, 0, 3, 0, 0, 2, 0, 1, 1, 1);
    assert(t29 * s9 == (3) * mn(p, 1, 2, 3, 0, 5, 1, 1));
    assert(t29 * q == (3) * mn(p, 3, 2, 1, 1, 5, 0, 0) + (3) * mn(p, 2, 3, 1, 2, 4, 0, 0) + (-3) * mn(p, 2, 3, 1, 0, 4, 2, 0) + (-6) * mn(p, 2, 2, 2, 0, 5, 1, 0) + (1) * mn(p, 1, 4, 1, 0, 5, 1, 0) + (-6) * mn(p, 1, 3, 2, 1, 4, 1, 0) + (1) * mn(p, 1, 3, 2, 0, 6, 0, 0) + (3) * mn(p, 1, 3, 2, 0, 4, 2, 1) + (-3) * mn(p, 1, 2, 3, 1, 5, 0, 0) + (3) * mn(p, 1, 2, 3, 0, 5, 1, 1));
    lemma_tm(p, -6, 1, 2, 1, 0, 2, 2, 1, 3, 2, 0, 0, 1, 1, 0, 0);
    assert(t30 * s0 == (-18) * mn(p, 3, 2, 1, 1, 3, 2, 1));
    lemma_tm(p, -6, 1, 2, 1, 0, 2, 2, 1, 3, 1, 1, 0, 2, 0, 0, 0);
    assert(t30 * s1 == (-18) * mn(p, 2, 3, 1, 2, 2, 2, 1));
    lemma_tm(p, -6, 1, 2, 1, 0, 2, 2, 1, -3, 1, 1, 0, 0, 0, 2, 0);
    assert(t30 * s2 == (18) * mn(p, 2, 3, 1, 0, 2, 4, 1));
    lemma_tm(p, -6, 1, 2, 1, 0, 2, 2, 1, -6, 1, 0, 1, 0, 1, 1, 0);
    assert(t30 * s3 == (36) * mn(p, 2, 2, 2, 0, 3, 3, 1));
    lemma_tm(p, -6, 1, 2, 1, 0, 2, 2, 1, 1, 0, 2, 0, 0, 1, 1, 0);
    assert(t30 * s4 == (-6) * mn(p, 1, 4, 1, 0, 3, 3, 1));
    lemma_tm(p, -6, 1, 2, 1, 0, 2, 2, 1, -6, 0, 1, 1, 1, 0, 1, 0);
    assert(t30 * s5 == (36) * mn(p, 1, 3, 2, 1, 2, 3, 1));
    lemma_tm(p, -6, 1, 2, 1, 0, 2, 2, 1, 1, 0, 1, 1, 0, 2, 0, 0);
    assert(t30 * s6 == (-6) * mn(p, 1, 3, 2, 0, 4, 2, 1));
    lemma_tm(p, -6, 1, 2, 1, 0, 2, 2, 1, 3, 0, 1, 1, 0, 0, 2, 1);
    assert(t30 * s7 == (-18) * mn(p, 1, 3, 2, 0, 2, 4, 2));
    lemma_tm(p, -6, 1, 2, 1, 0, 2, 2, 1, -3, 0, 0, 2, 1, 1, 0, 0);
    assert(t30 * s8 == (18) * mn(p, 1, 2, 3, 1, 3, 2, 1));
    lemma_tm(p, -6, 1, 2, 1, 0, 2, 2, 1, 3, 0, 0, 2, 0, 1, 1, 1);
    assert(t30 * s9 == (-18) * mn(p, 1, 2, 3, 0, 3, 3, 2));
    assert(t30 * q == (-18) * mn(p, 3, 2, 1, 1, 3, 2, 1) + (-18) * mn(p, 2, 3, 1, 2, 2, 2, 1) + (18) * mn(p, 2, 3, 1, 0, 2, 4, 1) + (36) * mn(p, 2, 2, 2, 0, 3, 3, 1) + (-6) * mn(p, 1, 4, 1, 0, 3, 3, 1) + (36) * mn(p, 1, 3, 2, 1, 2, 3, 1) + (-6) * mn(p, 1, 3, 2, 0, 4, 2, 1) + (-18) * mn(p, 1, 3, 2, 0, 2, 4, 2) + (18) * mn(p, 1, 2, 3, 1, 3, 2, 1) + (-18) * mn(p, 1, 2, 3, 0, 3, 3, 2));
    lemma_tm(p, -9, 1, 2, 1, 0, 0, 4, 2, 3, 2, 0, 0, 1, 1, 0, 0);
    assert(t31 * s0 == (-27) * mn(p, 3, 2, 1, 1, 1, 4, 2));
    lemma_tm(p, -9, 1, 2, 1, 0, 0, 4, 2, 3, 1, 1, 0, 2, 0, 0, 0);
    assert(t31 * s1 == (-27) * mn(p, 2, 3, 1, 2, 0, 4, 2));
    lemma_tm(p, -9, 1, 2, 1, 0, 0, 4, 2, -3, 1, 1, 0, 0, 0, 2, 0);
    assert(t31 * s2 == (27) * mn(p, 2, 3, 1, 0, 0, 6, 2));
    lemma_tm(p, -9, 1, 2, 1, 0, 0, 4, 2, -6, 1, 0, 1, 0, 1, 1, 0);
    assert(t31 * s3 == (54) * mn(p, 2, 2, 2, 0, 1, 5, 2));
    lemma_tm(p, -9, 1, 2, 1, 0, 0, 4, 2, 1, 0, 2, 0, 0, 1, 1, 0);
    assert(t31 * s4 == (-9) * mn(p, 1, 4, 1, 0, 1, 5, 2));
    lemma_tm(p, -9, 1, 2, 1, 0, 0, 4, 2, -6, 0, 1, 1, 1, 0, 1, 0);
    assert(t31 * s5 == (54) * mn(p, 1, 3, 2, 1, 0, 5, 2));
    lemma_tm(p, -9, 1, 2, 1, 0, 0, 4, 2, 1, 0, 1, 1, 0, 2, 0, 0);
    assert(t31 * s6 == (-9) * mn(p, 1, 3, 2, 0, 2, 4, 2));
    lemma_tm(p, -9, 1, 2, 1, 0, 0, 4, 2, 3, 0, 1, 1, 0, 0, 2, 1);
    assert(t31 * s7 == (-27) * mn(p, 1, 3, 2, 0, 0, 6, 3));
    lemma_tm(p, -9, 1, 2, 1, 0, 0, 4, 2, -3, 0, 0, 2, 1, 1, 0, 0);
    assert(t31 * s8 == (27) * mn(p, 1, 2, 3, 1, 1, 4, 2));
    lemma_tm(p, -9, 1, 2, 1, 0, 0, 4, 2, 3, 0, 0, 2, 0, 1, 1, 1);
    assert(t31 * s9 == (-27) * mn(p, 1, 2, 3, 0, 1, 5, 3));
    assert(t31 * q == (-27) * mn(p, 3, 2, 1, 1, 1, 4, 2) + (-27) * mn(p, 2, 3, 1, 2, 0, 4, 2) + (27) * mn(p, 2, 3, 1, 0, 0, 6, 2) + (54) * mn(p, 2, 2, 2, 0, 1, 5, 2) + (-9) * mn(p, 1, 4, 1, 0, 1, 5, 2) + (54) * mn(p, 1, 3, 2, 1, 0, 5, 2) + (-9) * mn(p, 1, 3, 2, 0, 2, 4, 2) + (-27) * mn(p, 1, 3, 2, 0, 0, 6, 3) + (27) * mn(p, 1, 2, 3, 1, 1, 4, 2) + (-27) * mn(p, 1, 2, 3, 0, 1, 5, 3));
    assert(pp31 * q == ((((((((27) * mn(p, 6, 0, 0, 2, 3, 1, 0) + (108) * mn(p, 5, 1, 0, 3, 2, 1, 0)) + ((9) * mn(p, 5, 1, 0, 2, 4, 0, 0) + (-27) * mn(p, 5, 1, 0, 2, 2, 2, 1))) + (((-54) * mn(p, 5, 1, 0, 1, 2, 3, 0) + (54) * mn(p, 5, 0, 1, 3, 3, 0, 0)) + ((-54) * mn(p, 5, 0, 1, 2, 3, 1, 1) + (-108) * mn(p, 5, 0, 1, 1, 3, 2, 0)))) + ((((135) * mn(p, 4, 2, 0, 4, 1, 1, 0) + (27) * mn(p, 4, 2, 0, 3, 3, 0, 0)) + ((-54) * mn(p, 4, 2, 0, 3, 1, 2, 1) + (-162) * mn(p, 4, 2, 0, 2, 1, 3, 0))) + (((54) * mn(p, 4, 2, 0, 1, 1, 4, 1) + (27) * mn(p, 4, 2, 0, 0, 1, 5, 0)) + ((135) * mn(p, 4, 1, 1, 4, 2, 0, 0) + ((-162) * mn(p, 4, 1, 1, 3, 2, 1, 1) + (-459) * mn(p, 4, 1, 1, 2, 2, 2, 0)))))) + (((((-18) * mn(p, 4, 1, 1, 1, 4, 1, 0) + (270) * mn(p, 4, 1, 1, 1, 2, 3, 1)) + ((108) * mn(p, 4, 1, 1, 0, 2, 4, 0) + (-27) * mn(p, 4, 0, 2, 3, 3, 0, 1))) + (((-189) * mn(p, 4, 0, 2, 2, 3, 1, 0) + (270) * mn(p, 4, 0, 2, 1, 3, 2, 1)) + ((108) * mn(p, 4, 0, 2, 0, 3, 3, 0) + ((54) * mn(p, 3, 3, 0, 5, 0, 1, 0) + (27) * mn(p, 3, 3, 0, 4, 2, 0, 0))))) + ((((-27) * mn(p, 3, 3, 0, 4, 0, 2, 1) + (-108) * mn(p, 3, 3, 0, 3, 0, 3, 0)) + ((18) * mn(p, 3, 3, 0, 2, 2, 2, 0) + (54) * mn(p, 3, 3, 0, 2, 0, 4, 1))) + (((6) * mn(p, 3, 3, 0, 1, 4, 1, 0) + (-18) * mn(p, 3, 3, 0, 1, 2, 3, 1)) + ((54) * mn(p, 3, 3, 0, 1, 0, 5, 0) + ((-9) * mn(p, 3, 3, 0, 0, 2, 4, 0) + (-27) * mn(p, 3, 3, 0, 0, 0, 6, 1))))))) + ((((((108) * mn(p, 3, 2, 1, 5, 1, 0, 0) + (-162) * mn(p, 3, 2, 1, 4, 1, 1, 1)) + ((-540) * mn(p, 3, 2, 1, 3, 1, 2, 0) + (-18) * mn(p, 3, 2, 1, 2, 3, 1, 0))) + (((594) * mn(p, 3, 2, 1, 2, 1, 3, 1) + (6) * mn(p, 3, 2, 1, 1, 5, 0, 0)) + ((-36) * mn(p, 3, 2, 1, 1, 3, 2, 1) + ((-54) * mn(p, 3, 2, 1, 1, 1, 4, 2) + (297) * mn(p, 3, 2, 1, 1, 1, 4, 0))))) + ((((-18) * mn(p, 3, 2, 1, 0, 3, 3, 0) + (-216) * mn(p, 3, 2, 1, 0, 1, 5, 1)) + ((-27) * mn(p, 3, 1, 2, 4, 2, 0, 1) + (-405) * mn(p, 3, 1, 2, 3, 2, 1, 0))) + (((9) * mn(p, 3, 1, 2, 2, 4, 0, 0) + (648) * mn(p, 3, 1, 2, 2, 2, 2, 1)) + ((-9) * mn(p, 3, 1, 2, 1, 4, 1, 1) + ((-81) * mn(p, 3, 1, 2, 1, 2, 3, 2) + (459) * mn(p, 3, 1, 2, 1, 2, 3, 0)))))) + (((((-486) * mn(p, 3, 1, 2, 0, 2, 4, 1) + (-54) * mn(p, 3, 0, 3, 3, 3, 0, 0)) + ((162) * mn(p, 3, 0, 3, 2, 3, 1, 1) + (-54) * mn(p, 3, 0, 3, 1, 3, 2, 2))) + (((162) * mn(p, 3, 0, 3, 1, 3, 2, 0) + (-324) * mn(p, 3, 0, 3, 0, 3, 3, 1)) + ((9) * mn(p, 2, 4, 0, 5, 1, 0, 0) + ((18) * mn(p, 2, 4, 0, 3, 1, 2, 0) + (9) * mn(p, 2, 4, 0, 2, 3, 1, 0))))) + ((((-18) * mn(p, 2, 4, 0, 2, 1, 3, 1) + (-27) * mn(p, 2, 4, 0, 1, 1, 4, 0)) + ((-3) * mn(p, 2, 4, 0, 0, 3, 3, 0) + (18) * mn(p, 2, 4, 0, 0, 1, 5, 1))) + (((27) * mn(p, 2, 3, 1, 6, 0, 0, 0) + (-54) * mn(p, 2, 3, 1, 5, 0, 1, 1)) + ((-189) * mn(p, 2, 3, 1, 4, 0, 2, 0) + ((-9) * mn(p, 2, 3, 1, 3, 2, 1, 0) + (324) * mn(p, 2, 3, 1, 3, 0, 3, 1)))))))) + (((((((9) * mn(p, 2, 3, 1, 2, 4, 0, 0) + (-45) * mn(p, 2, 3, 1, 2, 2, 2, 1)) + ((-54) * mn(p, 2, 3, 1, 2, 0, 4, 2) + (162) * mn(p, 2, 3, 1, 2, 0, 4, 0))) + (((-81) * mn(p, 2, 3, 1, 1, 2, 3, 0) + (-270) * mn(p, 2, 3, 1, 1, 0, 5, 1)) + ((-12) * mn(p, 2, 3, 1, 0, 4, 2, 0) + (90) * mn(p, 2, 3, 1, 0, 2, 4, 1)))) + ((((54) * mn(p, 2, 3, 1, 0, 0, 6, 2) + (-270) * mn(p, 2, 2, 2, 4, 1, 1, 0)) + ((9) * mn(p, 2, 2, 2, 3, 3, 0, 0) + (486) * mn(p, 2, 2, 2, 3, 1, 2, 1))) + (((-27) * mn(p, 2, 2, 2, 2, 3, 1, 1) + (-135) * mn(p, 2, 2, 2, 2, 1, 3, 2)) + ((432) * mn(p, 2, 2, 2, 2, 1, 3, 0) + ((-45) * mn(p, 2, 2, 2, 1, 3, 2, 0) + (-810) * mn(p, 2, 2, 2, 1, 1, 4, 1)))))) + (((((-9) * mn(p, 2, 2, 2, 0, 5, 1, 0) + (117) * mn(p, 2, 2, 2, 0, 3, 3, 1)) + ((216) * mn(p, 2, 2, 2, 0, 1, 5, 2) + (-81) * mn(p, 2, 1, 3, 4, 2, 0, 0))) + (((243) * mn(p, 2, 1, 3, 3, 2, 1, 1) + (-9) * mn(p, 2, 1, 3, 2, 4, 0, 1)) + ((-135) * mn(p, 2, 1, 3, 2, 2, 2, 2) + ((243) * mn(p, 2, 1, 3, 2, 2, 2, 0) + (-9) * mn(p, 2, 1, 3, 1, 4, 1, 0))))) + ((((-594) * mn(p, 2, 1, 3, 1, 2, 3, 1) + (36) * mn(p, 2, 1, 3, 0, 4, 2, 1)) + ((270) * mn(p, 2, 1, 3, 0, 2, 4, 2) + (27) * mn(p, 2, 0, 4, 3, 3, 0, 1))) + (((-27) * mn(p, 2, 0, 4, 2, 3, 1, 2) + (54) * mn(p, 2, 0, 4, 2, 3, 1, 0)) + ((-189) * mn(p, 2, 0, 4, 1, 3, 2, 1) + ((135) * mn(p, 2, 0, 4, 0, 3, 3, 2) + (3) * mn(p, 1, 5, 0, 3, 2, 1, 0))))))) + ((((((3) * mn(p, 1, 5, 0, 1, 2, 3, 0) + (1) * mn(p, 1, 5, 0, 0, 4, 2, 0)) + ((-3) * mn(p, 1, 5, 0, 0, 2, 4, 1) + (-9) * mn(p, 1, 4, 1, 4, 1, 1, 0))) + (((3) * mn(p, 1, 4, 1, 3, 3, 0, 0) + (-9) * mn(p, 1, 4, 1, 3, 1, 2, 1)) + ((-36) * mn(p, 1, 4, 1, 2, 1, 3, 0) + ((-3) * mn(p, 1, 4, 1, 1, 3, 2, 0) + (81) * mn(p, 1, 4, 1, 1, 1, 4, 1))))) + ((((2) * mn(p, 1, 4, 1, 0, 5, 1, 0) + (-6) * mn(p, 1, 4, 1, 0, 3, 3, 1)) + ((-18) * mn(p, 1, 4, 1, 0, 1, 5, 2) + (-54) * mn(p, 1, 3, 2, 5, 0, 1, 0))) + (((135) * mn(p, 1, 3, 2, 4, 0, 2, 1) + (-9) * mn(p, 1, 3, 2, 3, 2, 1, 1)) + ((-54) * mn(p, 1, 3, 2, 3, 0, 3, 2) + ((108) * mn(p, 1, 3, 2, 3, 0, 3, 0) + (-27) * mn(p, 1, 3, 2, 2, 2, 2, 0)))))) + (((((-378) * mn(p, 1, 3, 2, 2, 0, 4, 1) + (-9) * mn(p, 1, 3, 2, 1, 4, 1, 0)) + ((108) * mn(p, 1, 3, 2, 1, 2, 3, 1) + (216) * mn(p, 1, 3, 2, 1, 0, 5, 2))) + (((1) * mn(p, 1, 3, 2, 0, 6, 0, 0) + (-36) * mn(p, 1, 3, 2, 0, 2, 4, 2)) + ((-27) * mn(p, 1, 3, 2, 0, 0, 6, 3) + ((-27) * mn(p, 1, 2, 3, 5, 1, 0, 0) + (81) * mn(p, 1, 2, 3, 4, 1, 1, 1))))) + ((((-54) * mn(p, 1, 2, 3, 3, 1, 2, 2) + (54) * mn(p, 1, 2, 3, 3, 1, 2, 0)) + ((-216) * mn(p, 1, 2, 3, 2, 1, 3, 1) + (-3) * mn(p, 1, 2, 3, 1, 5, 0, 0))) + (((18) * mn(p, 1, 2, 3, 1, 3, 2, 1) + (189) * mn(p, 1, 2, 3, 1, 1, 4, 2)) + ((3) * mn(p, 1, 2, 3, 0, 5, 1, 1) + ((-18) * mn(p, 1, 2, 3, 0, 3, 3, 2) + (-27) * mn(p, 1, 2, 3, 0, 1, 5, 3))))))))));
    assert(pp31 == ((((((9) * mn(p, 4, 0, 0, 1, 2, 1, 0) + (27) * mn(p, 3, 1, 0, 2, 1, 1, 0)) + ((3) * mn(p, 3, 1, 0, 1, 3, 0, 0) + (-9) * mn(p, 3, 1, 0, 1, 1, 2, 1))) + (((-9) * mn(p, 3, 1, 0, 0, 1, 3, 0) + (18) * mn(p, 3, 0, 1, 2, 2, 0, 0)) + ((-18) * mn(p, 3, 0, 1, 1, 2, 1, 1) + (-18) * mn(p, 3, 0, 1, 0, 2, 2, 0)))) + ((((18) * mn(p, 2, 2, 0, 3, 0, 1, 0) + (6) * mn(p, 2, 2, 0, 2, 2, 0, 0)) + ((-9) * mn(p, 2, 2, 0, 2, 0, 2, 1) + (-18) * mn(p, 2, 2, 0, 1, 0, 3, 0))) + (((9) * mn(p, 2, 2, 0, 0, 0, 4, 1) + (27) * mn(p, 2, 1, 1, 3, 1, 0, 0)) + ((-36) * mn(p, 2, 1, 1, 2, 1, 1, 1) + (-45) * mn(p, 2, 1, 1, 1, 1, 2, 0))))) + (((((-3) * mn(p, 2, 1, 1, 0, 3, 1, 0) + (45) * mn(p, 2, 1, 1, 0, 1, 3, 1)) + ((-9) * mn(p, 2, 0, 2, 2, 2, 0, 1) + (-18) * mn(p, 2, 0, 2, 1, 2, 1, 0))) + (((45) * mn(p, 2, 0, 2, 0, 2, 2, 1) + (3) * mn(p, 1, 3, 0, 3, 1, 0, 0)) + ((3) * mn(p, 1, 3, 0, 1, 1, 2, 0) + (1) * mn(p, 1, 3, 0, 0, 3, 1, 0)))) + ((((-3) * mn(p, 1, 3, 0, 0, 1, 3, 1) + (9) * mn(p, 1, 2, 1, 4, 0, 0, 0)) + ((-18) * mn(p, 1, 2, 1, 3, 0, 1, 1) + (-18) * mn(p, 1, 2, 1, 2, 0, 2, 0))) + (((54) * mn(p, 1, 2, 1, 1, 0, 3, 1) + (1) * mn(p, 1, 2, 1, 0, 4, 0, 0)) + ((-6) * mn(p, 1, 2, 1, 0, 2, 2, 1) + (-9) * mn(p, 1, 2, 1, 0, 0, 4, 2)))))));
    assert(q == ((((3) * mn(p, 2, 0, 0, 1, 1, 0, 0) + (3) * mn(p, 1, 1, 0, 2, 0, 0, 0)) + ((-3) * mn(p, 1, 1, 0, 0, 0, 2, 0) + ((-6) * mn(p, 1, 0, 1, 0, 1, 1, 0) + (1) * mn(p, 0, 2, 0, 0, 1, 1, 0)))) + (((-6) * mn(p, 0, 1, 1, 1, 0, 1, 0) + (1) * mn(p, 0, 1, 1, 0, 2, 0, 0)) + ((3) * mn(p, 0, 1, 1, 0, 0, 2, 1) + ((-3) * mn(p, 0, 0, 2, 1, 1, 0, 0) + (3) * mn(p, 0, 0, 2, 0, 1, 1, 1))))));
}

#[verifier::rlimit(100)]
proof fn acb_prod12_c1(p: Pt)
    ensures
        (((((((-27) * mn(p, 1, 2, 1, 0, 0, 4, 0) + (-9) * mn(p, 1, 1, 2, 3, 1, 0, 1)) + ((-45) * mn(p, 1, 1, 2, 2, 1, 1, 0) + (3) * mn(p, 1, 1, 2, 1, 3, 0, 0))) + (((126) * mn(p, 1, 1, 2, 1, 1, 2, 1) + (-3) * mn(p, 1, 1, 2, 0, 3, 1, 1)) + ((-27) * mn(p, 1, 1, 2, 0, 1, 3, 2) + (-81) * mn(p, 1, 1, 2, 0, 1, 3, 0)))) + ((((-18) * mn(p, 1, 0, 3, 2, 2, 0, 0) + (54) * mn(p, 1, 0, 3, 1, 2, 1, 1)) + ((-18) * mn(p, 1, 0, 3, 0, 2, 2, 2) + (-54) * mn(p, 1, 0, 3, 0, 2, 2, 0))) + (((1) * mn(p, 0, 4, 0, 1, 2, 1, 0) + (-3) * mn(p, 0, 3, 1, 2, 1, 1, 0)) + ((1) * mn(p, 0, 3, 1, 1, 3, 0, 0) + (-3) * mn(p, 0, 3, 1, 1, 1, 2, 1))))) + (((((9) * mn(p, 0, 3, 1, 0, 1, 3, 0) + (-18) * mn(p, 0, 2, 2, 3, 0, 1, 0)) + ((45) * mn(p, 0, 2, 2, 2, 0, 2, 1) + (-6) * mn(p, 0, 2, 2, 1, 2, 1, 1))) + (((-18) * mn(p, 0, 2, 2, 1, 0, 3, 2) + (-54) * mn(p, 0, 2, 2, 1, 0, 3, 0)) + ((18) * mn(p, 0, 2, 2, 0, 2, 2, 0) + (27) * mn(p, 0, 2, 2, 0, 0, 4, 1)))) + ((((-9) * mn(p, 0, 1, 3, 3, 1, 0, 0) + (45) * mn(p, 0, 1, 3, 2, 1, 1, 1)) + ((-3) * mn(p, 0, 1, 3, 1, 3, 0, 1) + (-27) * mn(p, 0, 1, 3, 1, 1, 2, 2))) + (((-81) * mn(p, 0, 1, 3, 1, 1, 2, 0) + (9) * mn(p, 0, 1, 3, 0, 3, 1, 0)) + ((54) * mn(p, 0, 1, 3, 0, 1, 3, 1) + (9) * mn(p, 0, 0, 4, 2, 2, 0, 1))))))) * (((((3) * mn(p, 2, 0, 0, 1, 1, 0, 0) + (3) * mn(p, 1, 1, 0, 2, 0, 0, 0)) + ((-3) * mn(p, 1, 1, 0, 0, 0, 2, 0) + ((-6) * mn(p, 1, 0, 1, 0, 1, 1, 0) + (1) * mn(p, 0, 2, 0, 0, 1, 1, 0)))) + (((-6) * mn(p, 0, 1, 1, 1, 0, 1, 0) + (1) * mn(p, 0, 1, 1, 0, 2, 0, 0)) + ((3) * mn(p, 0, 1, 1, 0, 0, 2, 1) + ((-3) * mn(p, 0, 0, 2, 1, 1, 0, 0) + (3) * mn(p, 0, 0, 2, 0, 1, 1, 1)))))) == ((((((((-81) * mn(p, 3, 2, 1, 1, 1, 4, 0) + (-27) * mn(p, 3, 1, 2, 4, 2, 0, 1)) + ((-135) * mn(p, 3, 1, 2, 3, 2, 1, 0) + (9) * mn(p, 3, 1, 2, 2, 4, 0, 0))) + (((378) * mn(p, 3, 1, 2, 2, 2, 2, 1) + (-9) * mn(p, 3, 1, 2, 1, 4, 1, 1)) + ((-81) * mn(p, 3, 1, 2, 1, 2, 3, 2) + ((-243) * mn(p, 3, 1, 2, 1, 2, 3, 0) + (-54) * mn(p, 3, 0, 3, 3, 3, 0, 0))))) + ((((162) * mn(p, 3, 0, 3, 2, 3, 1, 1) + (-54) * mn(p, 3, 0, 3, 1, 3, 2, 2)) + ((-162) * mn(p, 3, 0, 3, 1, 3, 2, 0) + ((3) * mn(p, 2, 4, 0, 2, 3, 1, 0) + (-9) * mn(p, 2, 3, 1, 3, 2, 1, 0)))) + (((3) * mn(p, 2, 3, 1, 2, 4, 0, 0) + (-9) * mn(p, 2, 3, 1, 2, 2, 2, 1)) + ((-81) * mn(p, 2, 3, 1, 2, 0, 4, 0) + ((27) * mn(p, 2, 3, 1, 1, 2, 3, 0) + (81) * mn(p, 2, 3, 1, 0, 0, 6, 0)))))) + (((((-27) * mn(p, 2, 2, 2, 5, 1, 0, 1) + (-189) * mn(p, 2, 2, 2, 4, 1, 1, 0)) + ((9) * mn(p, 2, 2, 2, 3, 3, 0, 0) + ((540) * mn(p, 2, 2, 2, 3, 1, 2, 1) + (-27) * mn(p, 2, 2, 2, 2, 3, 1, 1)))) + (((-135) * mn(p, 2, 2, 2, 2, 1, 3, 2) + (-270) * mn(p, 2, 2, 2, 2, 1, 3, 0)) + ((45) * mn(p, 2, 2, 2, 1, 3, 2, 0) + ((-297) * mn(p, 2, 2, 2, 1, 1, 4, 1) + (9) * mn(p, 2, 2, 2, 0, 3, 3, 1))))) + ((((81) * mn(p, 2, 2, 2, 0, 1, 5, 2) + (405) * mn(p, 2, 2, 2, 0, 1, 5, 0)) + ((-81) * mn(p, 2, 1, 3, 4, 2, 0, 0) + ((351) * mn(p, 2, 1, 3, 3, 2, 1, 1) + (-9) * mn(p, 2, 1, 3, 2, 4, 0, 1)))) + (((-135) * mn(p, 2, 1, 3, 2, 2, 2, 2) + (-81) * mn(p, 2, 1, 3, 2, 2, 2, 0)) + ((9) * mn(p, 2, 1, 3, 1, 4, 1, 0) + ((-756) * mn(p, 2, 1, 3, 1, 2, 3, 1) + (18) * mn(p, 2, 1, 3, 0, 4, 2, 1))))))) + ((((((216) * mn(p, 2, 1, 3, 0, 2, 4, 2) + (648) * mn(p, 2, 1, 3, 0, 2, 4, 0)) + ((27) * mn(p, 2, 0, 4, 3, 3, 0, 1) + ((108) * mn(p, 2, 0, 4, 2, 3, 1, 0) + (-324) * mn(p, 2, 0, 4, 1, 3, 2, 1)))) + (((108) * mn(p, 2, 0, 4, 0, 3, 3, 2) + (324) * mn(p, 2, 0, 4, 0, 3, 3, 0)) + ((3) * mn(p, 1, 5, 0, 3, 2, 1, 0) + ((-3) * mn(p, 1, 5, 0, 1, 2, 3, 0) + (-9) * mn(p, 1, 4, 1, 4, 1, 1, 0))))) + ((((3) * mn(p, 1, 4, 1, 3, 3, 0, 0) + (-9) * mn(p, 1, 4, 1, 3, 1, 2, 1)) + ((36) * mn(p, 1, 4, 1, 2, 1, 3, 0) + ((-9) * mn(p, 1, 4, 1, 1, 3, 2, 0) + (9) * mn(p, 1, 4, 1, 1, 1, 4, 1)))) + (((-54) * mn(p, 1, 4, 1, 0, 1, 5, 0) + (-54) * mn(p, 1, 3, 2, 5, 0, 1, 0)) + ((135) * mn(p, 1, 3, 2, 4, 0, 2, 1) + ((-27) * mn(p, 1, 3, 2, 3, 2, 1, 1) + (-54) * mn(p, 1, 3, 2, 3, 0, 3, 2)))))) + (((((-108) * mn(p, 1, 3, 2, 3, 0, 3, 0) + (27) * mn(p, 1, 3, 2, 2, 2, 2, 0)) + ((-54) * mn(p, 1, 3, 2, 2, 0, 4, 1) + ((-3) * mn(p, 1, 3, 2, 1, 4, 1, 0) + (162) * mn(p, 1, 3, 2, 1, 2, 3, 1)))) + (((54) * mn(p, 1, 3, 2, 1, 0, 5, 2) + (324) * mn(p, 1, 3, 2, 1, 0, 5, 0)) + ((-3) * mn(p, 1, 3, 2, 0, 4, 2, 1) + ((-27) * mn(p, 1, 3, 2, 0, 2, 4, 2) + (-216) * mn(p, 1, 3, 2, 0, 2, 4, 0))))) + ((((-162) * mn(p, 1, 3, 2, 0, 0, 6, 1) + (-27) * mn(p, 1, 2, 3, 5, 1, 0, 0)) + ((189) * mn(p, 1, 2, 3, 4, 1, 1, 1) + ((-18) * mn(p, 1, 2, 3, 3, 3, 0, 1) + (-108) * mn(p, 1, 2, 3, 3, 1, 2, 2)))) + (((162) * mn(p, 1, 2, 3, 3, 1, 2, 0) + (-54) * mn(p, 1, 2, 3, 2, 3, 1, 0)) + ((-1134) * mn(p, 1, 2, 3, 2, 1, 3, 1) + ((3) * mn(p, 1, 2, 3, 1, 5, 0, 0) + (252) * mn(p, 1, 2, 3, 1, 3, 2, 1)))))))) + (((((((729) * mn(p, 1, 2, 3, 1, 1, 4, 2) + (1134) * mn(p, 1, 2, 3, 1, 1, 4, 0)) + ((-3) * mn(p, 1, 2, 3, 0, 5, 1, 1) + (-54) * mn(p, 1, 2, 3, 0, 3, 3, 2))) + (((-270) * mn(p, 1, 2, 3, 0, 3, 3, 0) + (-81) * mn(p, 1, 2, 3, 0, 1, 5, 3)) + ((-648) * mn(p, 1, 2, 3, 0, 1, 5, 1) + ((54) * mn(p, 1, 1, 4, 4, 2, 0, 1) + (-27) * mn(p, 1, 1, 4, 3, 2, 1, 2))))) + ((((297) * mn(p, 1, 1, 4, 3, 2, 1, 0) + (-27) * mn(p, 1, 1, 4, 2, 4, 0, 0)) + ((-1188) * mn(p, 1, 1, 4, 2, 2, 2, 1) + ((90) * mn(p, 1, 1, 4, 1, 4, 1, 1) + (891) * mn(p, 1, 1, 4, 1, 2, 3, 2)))) + (((1053) * mn(p, 1, 1, 4, 1, 2, 3, 0) + (-27) * mn(p, 1, 1, 4, 0, 4, 2, 2)) + ((-108) * mn(p, 1, 1, 4, 0, 4, 2, 0) + ((-135) * mn(p, 1, 1, 4, 0, 2, 4, 3) + (-729) * mn(p, 1, 1, 4, 0, 2, 4, 1)))))) + (((((54) * mn(p, 1, 0, 5, 3, 3, 0, 0) + (-270) * mn(p, 1, 0, 5, 2, 3, 1, 1)) + ((216) * mn(p, 1, 0, 5, 1, 3, 2, 2) + ((162) * mn(p, 1, 0, 5, 1, 3, 2, 0) + (-54) * mn(p, 1, 0, 5, 0, 3, 3, 3)))) + (((-162) * mn(p, 1, 0, 5, 0, 3, 3, 1) + (1) * mn(p, 0, 6, 0, 1, 3, 2, 0)) + ((-9) * mn(p, 0, 5, 1, 2, 2, 2, 0) + ((2) * mn(p, 0, 5, 1, 1, 4, 1, 0) + (9) * mn(p, 0, 5, 1, 0, 2, 4, 0))))) + ((((-12) * mn(p, 0, 4, 2, 2, 3, 1, 0) + (54) * mn(p, 0, 4, 2, 2, 1, 3, 1)) + ((1) * mn(p, 0, 4, 2, 1, 5, 0, 0) + ((-3) * mn(p, 0, 4, 2, 1, 3, 2, 1) + (-27) * mn(p, 0, 4, 2, 1, 1, 4, 2)))) + (((-108) * mn(p, 0, 4, 2, 1, 1, 4, 0) + (27) * mn(p, 0, 4, 2, 0, 3, 3, 0)) + ((54) * mn(p, 0, 4, 2, 0, 1, 5, 1) + ((108) * mn(p, 0, 3, 3, 4, 0, 2, 0) + (-18) * mn(p, 0, 3, 3, 3, 2, 1, 0))))))) + ((((((-324) * mn(p, 0, 3, 3, 3, 0, 3, 1) + (-3) * mn(p, 0, 3, 3, 2, 4, 0, 0)) + ((126) * mn(p, 0, 3, 3, 2, 2, 2, 1) + ((243) * mn(p, 0, 3, 3, 2, 0, 4, 2) + (324) * mn(p, 0, 3, 3, 2, 0, 4, 0)))) + (((-6) * mn(p, 0, 3, 3, 1, 4, 1, 1) + (-72) * mn(p, 0, 3, 3, 1, 2, 3, 2)) + ((-270) * mn(p, 0, 3, 3, 1, 2, 3, 0) + ((-54) * mn(p, 0, 3, 3, 1, 0, 5, 3) + (-324) * mn(p, 0, 3, 3, 1, 0, 5, 1))))) + ((((27) * mn(p, 0, 3, 3, 0, 4, 2, 0) + (162) * mn(p, 0, 3, 3, 0, 2, 4, 1)) + ((81) * mn(p, 0, 3, 3, 0, 0, 6, 2) + ((108) * mn(p, 0, 2, 4, 4, 1, 1, 0) + (-9) * mn(p, 0, 2, 4, 3, 3, 0, 0)))) + (((-486) * mn(p, 0, 2, 4, 3, 1, 2, 1) + (90) * mn(p, 0, 2, 4, 2, 3, 1, 1)) + ((486) * mn(p, 0, 2, 4, 2, 1, 3, 2) + ((648) * mn(p, 0, 2, 4, 2, 1, 3, 0) + (-3) * mn(p, 0, 2, 4, 1, 5, 0, 1)))))) + (((((-54) * mn(p, 0, 2, 4, 1, 3, 2, 2) + (-189) * mn(p, 0, 2, 4, 1, 3, 2, 0)) + ((-135) * mn(p, 0, 2, 4, 1, 1, 4, 3) + ((-810) * mn(p, 0, 2, 4, 1, 1, 4, 1) + (9) * mn(p, 0, 2, 4, 0, 5, 1, 0)))) + (((135) * mn(p, 0, 2, 4, 0, 3, 3, 1) + (243) * mn(p, 0, 2, 4, 0, 1, 5, 2)) + ((27) * mn(p, 0, 1, 5, 4, 2, 0, 0) + ((-216) * mn(p, 0, 1, 5, 3, 2, 1, 1) + (18) * mn(p, 0, 1, 5, 2, 4, 0, 1))))) + ((((243) * mn(p, 0, 1, 5, 2, 2, 2, 2) + (243) * mn(p, 0, 1, 5, 2, 2, 2, 0)) + ((-9) * mn(p, 0, 1, 5, 1, 4, 1, 2) + ((-27) * mn(p, 0, 1, 5, 1, 4, 1, 0) + (-81) * mn(p, 0, 1, 5, 1, 2, 3, 3)))) + (((-405) * mn(p, 0, 1, 5, 1, 2, 3, 1) + (27) * mn(p, 0, 1, 5, 0, 4, 2, 1)) + ((162) * mn(p, 0, 1, 5, 0, 2, 4, 2) + ((-27) * mn(p, 0, 0, 6, 3, 3, 0, 1) + (27) * mn(p, 0, 0, 6, 2, 3, 1, 2))))))))),
{
    let t0 = (-27) * mn(p, 1, 2, 1, 0, 0, 4, 0);
    let t1 = (-9) * mn(p, 1, 1, 2, 3, 1, 0, 1);
    let t2 = (-45) * mn(p, 1, 1, 2, 2, 1, 1, 0);
    let t3 = (3) * mn(p, 1, 1, 2, 1, 3, 0, 0);
    let t4 = (126) * mn(p, 1, 1, 2, 1, 1, 2, 1);
    let t5 = (-3) * mn(p, 1, 1, 2, 0, 3, 1, 1);
    let t6 = (-27) * mn(p, 1, 1, 2, 0, 1, 3, 2);
    let t7 = (-81) * mn(p, 1, 1, 2, 0, 1, 3, 0);
    let t8 = (-18) * mn(p, 1, 0, 3, 2, 2, 0, 0);
    let t9 = (54) * mn(p, 1, 0, 3, 1, 2, 1, 1);
    let t10 = (-18) * mn(p, 1, 0, 3, 0, 2, 2, 2);
    let t11 = (-54) * mn(p, 1, 0, 3, 0, 2, 2, 0);
    let t12 = (1) * mn(p, 0, 4, 0, 1, 2, 1, 0);
    let t13 = (-3) * mn(p, 0, 3, 1, 2, 1, 1, 0);
    let t14 = (1) * mn(p, 0, 3, 1, 1, 3, 0, 0);
    let t15 = (-3) * mn(p, 0, 3, 1, 1, 1, 2, 1);
    let t16 = (9) * mn(p, 0, 3, 1, 0, 1, 3, 0);
    let t17 = (-18) * mn(p, 0, 2, 2, 3, 0, 1, 0);
    let t18 = (45) * mn(p, 0, 2, 2, 2, 0, 2, 1);
    let t19 = (-6) * mn(p, 0, 2, 2, 1, 2, 1, 1);
    let t20 = (-18) * mn(p, 0, 2, 2, 1, 0, 3, 2);
    let t21 = (-54) * mn(p, 0, 2, 2, 1, 0, 3, 0);
    let t22 = (18) * mn(p, 0, 2, 2, 0, 2, 2, 0);
    let t23 = (27) * mn(p, 0, 2, 2, 0, 0, 4, 1);
    let t24 = (-9) * mn(p, 0, 1, 3, 3, 1, 0, 0);
    let t25 = (45) * mn(p, 0, 1, 3, 2, 1, 1, 1);
    let t26 = (-3) * mn(p, 0, 1, 3, 1, 3, 0, 1);
    let t27 = (-27) * mn(p, 0, 1, 3, 1, 1, 2, 2);
    let t28 = (-81) * mn(p, 0, 1, 3, 1, 1, 2, 0);
    let t29 = (9) * mn(p, 0, 1, 3, 0, 3, 1, 0);
    let t30 = (54) * mn(p, 0, 1, 3, 0, 1, 3, 1);
    let t31 = (9) * mn(p, 0, 0, 4, 2, 2, 0, 1);
    let s0 = (3) * mn(p, 2, 0, 0, 1, 1, 0, 0);
    let s1 = (3) * mn(p, 1, 1, 0, 2, 0, 0, 0);
    let s2 = (-3) * mn(p, 1, 1, 0, 0, 0, 2, 0);
    let s3 = (-6) * mn(p, 1, 0, 1, 0, 1, 1, 0);
    let s4 = (1) * mn(p, 0, 2, 0, 0, 1, 1, 0);
    let s5 = (-6) * mn(p, 0, 1, 1, 1, 0, 1, 0);
    let s6 = (1) * mn(p, 0, 1, 1, 0, 2, 0, 0);
    let s7 = (3) * mn(p, 0, 1, 1, 0, 0, 2, 1);
    let s8 = (-3) * mn(p, 0, 0, 2, 1, 1, 0, 0);
    let s9 = (3) * mn(p, 0, 0, 2, 0, 1, 1, 1);
    let pp0 = t0;
    let pp1 = pp0 + t1;
    let pp2 = pp1 + t2;
    let pp3 = pp2 + t3;
    let pp4 = pp3 + t4;
    let pp5 = pp4 + t5;
    let pp6 = pp5 + t6;
    let pp7 = pp6 + t7;
    let pp8 = pp7 + t8;
    let pp9 = pp8 + t9;
    let pp10 = pp9 + t10;
    let pp11 = pp10 + t11;
    let pp12 = pp11 + t12;
    let pp13 = pp12 + t13;
    let pp14 = pp13 + t14;
    let pp15 = pp14 + t15;
    let pp16 = pp15 + t16;
    let pp17 = pp16 + t17;
    let pp18 = pp17 + t18;
    let pp19 = pp18 + t19;
    let pp20 = pp19 + t20;
    let pp21 = pp20 + t21;
    let pp22 = pp21 + t22;
    let pp23 = pp22 + t23;
    let pp24 = pp23 + t24;
    let pp25 = pp24 + t25;
    let pp26 = pp25 + t26;
    let pp27 = pp26 + t27;
    let pp28 = pp27 + t28;
    let pp29 = pp28 + t29;
    let pp30 = pp29 + t30;
    let pp31 = pp30 + t31;
    let qq0 = s0;
    let qq1 = qq0 + s1;
    let qq2 = qq1 + s2;
    let qq3 = qq2 + s3;
    let qq4 = qq3 + s4;
    let qq5 = qq4 + s5;
    let qq6 = qq5 + s6;
    let qq7 = qq6 + s7;
    let qq8 = qq7 + s8;
    let qq9 = qq8 + s9;
    let q = qq9;
    lemma_mul_is_distributive_add_other_way(q, pp0, t1);
    lemma_mul_is_distributive_add_other_way(q, pp1, t2);
    lemma_mul_is_distributive_add_other_way(q, pp2, t3);
    lemma_mul_is_distributive_add_other_way(q, pp3, t4);
    lemma_mul_is_distributive_add_other_way(q, pp4, t5);
    lemma_mul_is_distributive_add_other_way(q, pp5, t6);
    lemma_mul_is_distributive_add_other_way(q, pp6, t7);
    lemma_mul_is_distributive_add_other_way(q, pp7, t8);
    lemma_mul_is_distributive_add_other_way(q, pp8, t9);
    lemma_mul_is_distributive_add_other_way(q, pp9, t10);
    lemma_mul_is_distributive_add_other_way(q, pp10, t11);
    lemma_mul_is_distributive_add_other_way(q, pp11, t12);
    lemma_mul_is_distributive_add_other_way(q, pp12, t13);
    lemma_mul_is_distributive_add_other_way(q, pp13, t14);
    lemma_mul_is_distributive_add_other_way(q, pp14, t15);
    lemma_mul_is_distributive_add_other_way(q, pp15, t16);
    lemma_mul_is_distributive_add_other_way(q, pp16, t17);
    lemma_mul_is_distributive_add_other_way(q, pp17, t18);
    lemma_mul_is_distributive_add_other_way(q, pp18, t19);
    lemma_mul_is_distributive_add_other_way(q, pp19, t20);
    lemma_mul_is_distributive_add_other_way(q, pp20, t21);
    lemma_mul_is_distributive_add_other_way(q, pp21, t22);
    lemma_mul_is_distributive_add_other_way(q, pp22, t23);
    lemma_mul_is_distributive_add_other_way(q, pp23, t24);
    lemma_mul_is_distributive_add_other_way(q, pp24, t25);
    lemma_mul_is_distributive_add_other_way(q, pp25, t26);
    lemma_mul_is_distributive_add_other_way(q, pp26, t27);
    lemma_mul_is_distributive_add_other_way(q, pp27, t28);
    lemma_mul_is_distributive_add_other_way(q, pp28, t29);
    lemma_mul_is_distributive_add_other_way(q, pp29, t30);
    lemma_mul_is_distributive_add_other_way(q, pp30, t31);
    lemma_mul_is_distributive_add(t0, qq0, s1);
    lemma_mul_is_distributive_add(t0, qq1, s2);
    lemma_mul_is_distributive_add(t0, qq2, s3);
    lemma_mul_is_distributive_add(t0, qq3, s4);
    lemma_mul_is_distributive_add(t0, qq4, s5);
    lemma_mul_is_distributive_add(t0, qq5, s6);
    lemma_mul_is_distributive_add(t0, qq6, s7);
    lemma_mul_is_distributive_add(t0, qq7, s8);
    lemma_mul_is_distributive_add(t0, qq8, s9);
    lemma_mul_is_distributive_add(t1, qq0, s1);
    lemma_mul_is_distributive_add(t1, qq1, s2);
    lemma_mul_is_distributive_add(t1, qq2, s3);
    lemma_mul_is_distributive_add(t1, qq3, s4);
    lemma_mul_is_distributive_add(t1, qq4, s5);
    lemma_mul_is_distributive_add(t1, qq5, s6);
    lemma_mul_is_distributive_add(t1, qq6, s7);
    lemma_mul_is_distributive_add(t1, qq7, s8);
    lemma_mul_is_distributive_add(t1, qq8, s9);
    lemma_mul_is_distributive_add(t2, qq0, s1);
    lemma_mul_is_distributive_add(t2, qq1, s2);
    lemma_mul_is_distributive_add(t2, qq2, s3);
    lemma_mul_is_distributive_add(t2, qq3, s4);
    lemma_mul_is_distributive_add(t2, qq4, s5);
    lemma_mul_is_distributive_add(t2, qq5, s6);
    lemma_mul_is_distributive_add(t2, qq6, s7);
    lemma_mul_is_distributive_add(t2, qq7, s8);
    lemma_mul_is_distributive_add(t2, qq8, s9);
    lemma_mul_is_distributive_add(t3, qq0, s1);
    lemma_mul_is_distributive_add(t3, qq1, s2);
    lemma_mul_is_distributive_add(t3, qq2, s3);
    lemma_mul_is_distributive_add(t3, qq3, s4);
    lemma_mul_is_distributive_add(t3, qq4, s5);
    lemma_mul_is_distributive_add(t3, qq5, s6);
    lemma_mul_is_distributive_add(t3, qq6, s7);
    lemma_mul_is_distributive_add(t3, qq7, s8);
    lemma_mul_is_distributive_add(t3, qq8, s9);
    lemma_mul_is_distributive_add(t4, qq0, s1);
    lemma_mul_is_distributive_add(t4, qq1, s2);
    lemma_mul_is_distributive_add(t4, qq2, s3);
    lemma_mul_is_distributive_add(t4, qq3, s4);
    lemma_mul_is_distributive_add(t4, qq4, s5);
    lemma_mul_is_distributive_add(t4, qq5, s6);
    lemma_mul_is_distributive_add(t4, qq6, s7);
    lemma_mul_is_distributive_add(t4, qq7, s8);
    lemma_mul_is_distributive_add(t4, qq8, s9);
    lemma_mul_is_distributive_add(t5, qq0, s1);
    lemma_mul_is_distributive_add(t5, qq1, s2);
    lemma_mul_is_distributive_add(t5, qq2, s3);
    lemma_mul_is_distributive_add(t5, qq3, s4);
    lemma_mul_is_distributive_add(t5, qq4, s5);
    lemma_mul_is_distributive_add(t5, qq5, s6);
    lemma_mul_is_distributive_add(t5, qq6, s7);
    lemma_mul_is_distributive_add(t5, qq7, s8);
    lemma_mul_is_distributive_add(t5, qq8, s9);
    lemma_mul_is_distributive_add(t6, qq0, s1);
    lemma_mul_is_distributive_add(t6, qq1, s2);
    lemma_mul_is_distributive_add(t6, qq2, s3);
    lemma_mul_is_distributive_add(t6, qq3, s4);
    lemma_mul_is_distributive_add(t6, qq4, s5);
    lemma_mul_is_distributive_add(t6, qq5, s6);
    lemma_mul_is_distributive_add(t6, qq6, s7);
    lemma_mul_is_distributive_add(t6, qq7, s8);
    lemma_mul_is_distributive_add(t6, qq8, s9);
    lemma_mul_is_distributive_add(t7, qq0, s1);
    lemma_mul_is_distributive_add(t7, qq1, s2);
    lemma_mul_is_distributive_add(t7, qq2, s3);
    lemma_mul_is_distributive_add(t7, qq3, s4);
    lemma_mul_is_distributive_add(t7, qq4, s5);
    lemma_mul_is_distributive_add(t7, qq5, s6);
    lemma_mul_is_distributive_add(t7, qq6, s7);
    lemma_mul_is_distributive_add(t7, qq7, s8);
    lemma_mul_is_distributive_add(t7, qq8, s9);
    lemma_mul_is_distributive_add(t8, qq0, s1);
    lemma_mul_is_distributive_add(t8, qq1, s2);
    lemma_mul_is_distributive_add(t8, qq2, s3);
    lemma_mul_is_distributive_add(t8, qq3, s4);
    lemma_mul_is_distributive_add(t8, qq4, s5);
    lemma_mul_is_distributive_add(t8, qq5, s6);
    lemma_mul_is_distributive_add(t8, qq6, s7);
    lemma_mul_is_distributive_add(t8, qq7, s8);
    lemma_mul_is_distributive_add(t8, qq8, s9);
    lemma_mul_is_distributive_add(t9, qq0, s1);
    lemma_mul_is_distributive_add(t9, qq1, s2);
    lemma_mul_is_distributive_add(t9, qq2, s3);
    lemma_mul_is_distributive_add(t9, qq3, s4);
    lemma_mul_is_distributive_add(t9, qq4, s5);
    lemma_mul_is_distributive_add(t9, qq5, s6);
    lemma_mul_is_distributive_add(t9, qq6, s7);
    lemma_mul_is_distributive_add(t9, qq7, s8);
    lemma_mul_is_distributive_add(t9, qq8, s9);
    lemma_mul_is_distributive_add(t10, qq0, s1);
    lemma_mul_is_distributive_add(t10, qq1, s2);
    lemma_mul_is_distributive_add(t10, qq2, s3);
    lemma_mul_is_distributive_add(t10, qq3, s4);
    lemma_mul_is_distributive_add(t10, qq4, s5);
    lemma_mul_is_distributive_add(t10, qq5, s6);
    lemma_mul_is_distributive_add(t10, qq6, s7);
    lemma_mul_is_distributive_add(t10, qq7, s8);
    lemma_mul_is_distributive_add(t10, qq8, s9);
    lemma_mul_is_distributive_add(t11, qq0, s1);
    lemma_mul_is_distributive_add(t11, qq1, s2);
    lemma_mul_is_distributive_add(t11, qq2, s3);
    lemma_mul_is_distributive_add(t11, qq3, s4);
    lemma_mul_is_distributive_add(t11, qq4, s5);
    lemma_mul_is_distributive_add(t11, qq5, s6);
    lemma_mul_is_distributive_add(t11, qq6, s7);
    lemma_mul_is_distributive_add(t11, qq7, s8);
    lemma_mul_is_distributive_add(t11, qq8, s9);
    lemma_mul_is_distributive_add(t12, qq0, s1);
    lemma_mul_is_distributive_add(t12, qq1, s2);
    lemma_mul_is_distributive_add(t12, qq2, s3);
    lemma_mul_is_distributive_add(t12, qq3, s4);
    lemma_mul_is_distributive_add(t12, qq4, s5);
    lemma_mul_is_distributive_add(t12, qq5, s6);
    lemma_mul_is_distributive_add(t12, qq6, s7);
    lemma_mul_is_distributive_add(t12, qq7, s8);
    lemma_mul_is_distributive_add(t12, qq8, s9);
    lemma_mul_is_distributive_add(t13, qq0, s1);
    lemma_mul_is_distributive_add(t13, qq1, s2);
    lemma_mul_is_distributive_add(t13, qq2, s3);
    lemma_mul_is_distributive_add(t13, qq3, s4);
    lemma_mul_is_distributive_add(t13, qq4, s5);
    lemma_mul_is_distributive_add(t13, qq5, s6);
    lemma_mul_is_distributive_add(t13, qq6, s7);
    lemma_mul_is_distributive_add(t13, qq7, s8);
    lemma_mul_is_distributive_add(t13, qq8, s9);
    lemma_mul_is_distributive_add(t14, qq0, s1);
    lemma_mul_is_distributive_add(t14, qq1, s2);
    lemma_mul_is_distributive_add(t14, qq2, s3);
    lemma_mul_is_distributive_add(t14, qq3, s4);
    lemma_mul_is_distributive_add(t14, qq4, s5);
    lemma_mul_is_distributive_add(t14, qq5, s6);
    lemma_mul_is_distributive_add(t14, qq6, s7);
    lemma_mul_is_distributive_add(t14, qq7, s8);
    lemma_mul_is_distributive_add(t14, qq8, s9);
    lemma_mul_is_distributive_add(t15, qq0, s1);
    lemma_mul_is_distributive_add(t15, qq1, s2);
    lemma_mul_is_distributive_add(t15, qq2, s3);
    lemma_mul_is_distributive_add(t15, qq3, s4);
    lemma_mul_is_distributive_add(t15, qq4, s5);
    lemma_mul_is_distributive_add(t15, qq5, s6);
    lemma_mul_is_distributive_add(t15, qq6, s7);
    lemma_mul_is_distributive_add(t15, qq7, s8);
    lemma_mul_is_distributive_add(t15, qq8, s9);
    lemma_mul_is_distributive_add(t16, qq0, s1);
    lemma_mul_is_distributive_add(t16, qq1, s2);
    lemma_mul_is_distributive_add(t16, qq2, s3);
    lemma_mul_is_distributive_add(t16, qq3, s4);
    lemma_mul_is_distributive_add(t16, qq4, s5);
    lemma_mul_is_distributive_add(t16, qq5, s6);
    lemma_mul_is_distributive_add(t16, qq6, s7);
    lemma_mul_is_distributive_add(t16, qq7, s8);
    lemma_mul_is_distributive_add(t16, qq8, s9);
    lemma_mul_is_distributive_add(t17, qq0, s1);
    lemma_mul_is_distributive_add(t17, qq1, s2);
    lemma_mul_is_distributive_add(t17, qq2, s3);
    lemma_mul_is_distributive_add(t17, qq3, s4);
    lemma_mul_is_distributive_add(t17, qq4, s5);
    lemma_mul_is_distributive_add(t17, qq5, s6);
    lemma_mul_is_distributive_add(t17, qq6, s7);
    lemma_mul_is_distributive_add(t17, qq7, s8);
    lemma_mul_is_distributive_add(t17, qq8, s9);
    lemma_mul_is_distributive_add(t18, qq0, s1);
    lemma_mul_is_distributive_add(t18, qq1, s2);
    lemma_mul_is_distributive_add(t18, qq2, s3);
    lemma_mul_is_distributive_add(t18, qq3, s4);
    lemma_mul_is_distributive_add(t18, qq4, s5);
    lemma_mul_is_distributive_add(t18, qq5, s6);
    lemma_mul_is_distributive_add(t18, qq6, s7);
    lemma_mul_is_distributive_add(t18, qq7, s8);
    lemma_mul_is_distributive_add(t18, qq8, s9);
    lemma_mul_is_distributive_add(t19, qq0, s1);
    lemma_mul_is_distributive_add(t19, qq1, s2);
    lemma_mul_is_distributive_add(t19, qq2, s3);
    lemma_mul_is_distributive_add(t19, qq3, s4);
    lemma_mul_is_distributive_add(t19, qq4, s5);
    lemma_mul_is_distributive_add(t19, qq5, s6);
    lemma_mul_is_distributive_add(t19, qq6, s7);
    lemma_mul_is_distributive_add(t19, qq7, s8);
    lemma_mul_is_distributive_add(t19, qq8, s9);
    lemma_mul_is_distributive_add(t20, qq0, s1);
    lemma_mul_is_distributive_add(t20, qq1, s2);
    lemma_mul_is_distributive_add(t20, qq2, s3);
    lemma_mul_is_distributive_add(t20, qq3, s4);
    lemma_mul_is_distributive_add(t20, qq4, s5);
    lemma_mul_is_distributive_add(t20, qq5, s6);
    lemma_mul_is_distributive_add(t20, qq6, s7);
    lemma_mul_is_distributive_add(t20, qq7, s8);
    lemma_mul_is_distributive_add(t20, qq8, s9);
    lemma_mul_is_distributive_add(t21, qq0, s1);
    lemma_mul_is_distributive_add(t21, qq1, s2);
    lemma_mul_is_distributive_add(t21, qq2, s3);
    lemma_mul_is_distributive_add(t21, qq3, s4);
    lemma_mul_is_distributive_add(t21, qq4, s5);
    lemma_mul_is_distributive_add(t21, qq5, s6);
    lemma_mul_is_distributive_add(t21, qq6, s7);
    lemma_mul_is_distributive_add(t21, qq7, s8);
    lemma_mul_is_distributive_add(t21, qq8, s9);
    lemma_mul_is_distributive_add(t22, qq0, s1);
    lemma_mul_is_distributive_add(t22, qq1, s2);
    lemma_mul_is_distributive_add(t22, qq2, s3);
    lemma_mul_is_distributive_add(t22, qq3, s4);
    lemma_mul_is_distributive_add(t22, qq4, s5);
    lemma_mul_is_distributive_add(t22, qq5, s6);
    lemma_mul_is_distributive_add(t22, qq6, s7);
    lemma_mul_is_distributive_add(t22, qq7, s8);
    lemma_mul_is_distributive_add(t22, qq8, s9);
    lemma_mul_is_distributive_add(t23, qq0, s1);
    lemma_mul_is_distributive_add(t23, qq1, s2);
    lemma_mul_is_distributive_add(t23, qq2, s3);
    lemma_mul_is_distributive_add(t23, qq3, s4);
    lemma_mul_is_distributive_add(t23, qq4, s5);
    lemma_mul_is_distributive_add(t23, qq5, s6);
    lemma_mul_is_distributive_add(t23, qq6, s7);
    lemma_mul_is_distributive_add(t23, qq7, s8);
    lemma_mul_is_distributive_add(t23, qq8, s9);
    lemma_mul_is_distributive_add(t24, qq0, s1);
    lemma_mul_is_distributive_add(t24, qq1, s2);
    lemma_mul_is_distributive_add(t24, qq2, s3);
    lemma_mul_is_distributive_add(t24, qq3, s4);
    lemma_mul_is_distributive_add(t24, qq4, s5);
    lemma_mul_is_distributive_add(t24, qq5, s6);
    lemma_mul_is_distributive_add(t24, qq6, s7);
    lemma_mul_is_distributive_add(t24, qq7, s8);
    lemma_mul_is_distributive_add(t24, qq8, s9);
    lemma_mul_is_distributive_add(t25, qq0, s1);
    lemma_mul_is_distributive_add(t25, qq1, s2);
    lemma_mul_is_distributive_add(t25, qq2, s3);
    lemma_mul_is_distributive_add(t25, qq3, s4);
    lemma_mul_is_distributive_add(t25, qq4, s5);
    lemma_mul_is_distributive_add(t25, qq5, s6);
    lemma_mul_is_distributive_add(t25, qq6, s7);
    lemma_mul_is_distributive_add(t25, qq7, s8);
    lemma_mul_is_distributive_add(t25, qq8, s9);
    lemma_mul_is_distributive_add(t26, qq0, s1);
    lemma_mul_is_distributive_add(t26, qq1, s2);
    lemma_mul_is_distributive_add(t26, qq2, s3);
    lemma_mul_is_distributive_add(t26, qq3, s4);
    lemma_mul_is_distributive_add(t26, qq4, s5);
    lemma_mul_is_distributive_add(t26, qq5, s6);
    lemma_mul_is_distributive_add(t26, qq6, s7);
    lemma_mul_is_distributive_add(t26, qq7, s8);
    lemma_mul_is_distributive_add(t26, qq8, s9);
    lemma_mul_is_distributive_add(t27, qq0, s1);
    lemma_mul_is_distributive_add(t27, qq1, s2);
    lemma_mul_is_distributive_add(t27, qq2, s3);
    lemma_mul_is_distributive_add(t27, qq3, s4);
    lemma_mul_is_distributive_add(t27, qq4, s5);
    lemma_mul_is_distributive_add(t27, qq5, s6);
    lemma_mul_is_distributive_add(t27, qq6, s7);
    lemma_mul_is_distributive_add(t27, qq7, s8);
    lemma_mul_is_distributive_add(t27, qq8, s9);
    lemma_mul_is_distributive_add(t28, qq0, s1);
    lemma_mul_is_distributive_add(t28, qq1, s2);
    lemma_mul_is_distributive_add(t28, qq2, s3);
    lemma_mul_is_distributive_add(t28, qq3, s4);
    lemma_mul_is_distributive_add(t28, qq4, s5);
    lemma_mul_is_distributive_add(t28, qq5, s6);
    lemma_mul_is_distributive_add(t28, qq6, s7);
    lemma_mul_is_distributive_add(t28, qq7, s8);
    lemma_mul_is_distributive_add(t28, qq8, s9);
    lemma_mul_is_distributive_add(t29, qq0, s1);
    lemma_mul_is_distributive_add(t29, qq1, s2);
    lemma_mul_is_distributive_add(t29, qq2, s3);
    lemma_mul_is_distributive_add(t29, qq3, s4);
    lemma_mul_is_distributive_add(t29, qq4, s5);
    lemma_mul_is_distributive_add(t29, qq5, s6);
    lemma_mul_is_distributive_add(t29, qq6, s7);
    lemma_mul_is_distributive_add(t29, qq7, s8);
    lemma_mul_is_distributive_add(t29, qq8, s9);
    lemma_mul_is_distributive_add(t30, qq0, s1);
    lemma_mul_is_distributive_add(t30, qq1, s2);
    lemma_mul_is_distributive_add(t30, qq2, s3);
    lemma_mul_is_distributive_add(t30, qq3, s4);
    lemma_mul_is_distributive_add(t30, qq4, s5);
    lemma_mul_is_distributive_add(t30, qq5, s6);
    lemma_mul_is_distributive_add(t30, qq6, s7);
    lemma_mul_is_distributive_add(t30, qq7, s8);
    lemma_mul_is_distributive_add(t30, qq8, s9);
    lemma_mul_is_distributive_add(t31, qq0, s1);
    lemma_mul_is_distributive_add(t31, qq1, s2);
    lemma_mul_is_distributive_add(t31, qq2, s3);
    lemma_mul_is_distributive_add(t31, qq3, s4);
    lemma_mul_is_distributive_add(t31, qq4, s5);
    lemma_mul_is_distributive_add(t31, qq5, s6);
    lemma_mul_is_distributive_add(t31, qq6, s7);
    lemma_mul_is_distributive_add(t31, qq7, s8);
    lemma_mul_is_distributive_add(t31, qq8, s9);
    lemma_tm(p, -27, 1, 2, 1, 0, 0, 4, 0, 3, 2, 0, 0, 1, 1, 0, 0);
    assert(t0 * s0 == (-81) * mn(p, 3, 2, 1, 1, 1, 4, 0));
    lemma_tm(p, -27, 1, 2, 1, 0, 0, 4, 0, 3, 1, 1, 0, 2, 0, 0, 0);
    assert(t0 * s1 == (-81) * mn(p, 2, 3, 1, 2, 0, 4, 0));
    lemma_tm(p, -27, 1, 2, 1, 0, 0, 4, 0, -3, 1, 1, 0, 0, 0, 2, 0);
    assert(t0 * s2 == (81) * mn(p, 2, 3, 1, 0, 0, 6, 0));
    lemma_tm(p, -27, 1, 2, 1, 0, 0, 4, 0, -6, 1, 0, 1, 0, 1, 1, 0);
    assert(t0 * s3 == (162) * mn(p, 2, 2, 2, 0, 1, 5, 0));
    lemma_tm(p, -27, 1, 2, 1, 0, 0, 4, 0, 1, 0, 2, 0, 0, 1, 1, 0);
    assert(t0 * s4 == (-27) * mn(p, 1, 4, 1, 0, 1, 5, 0));
    lemma_tm(p, -27, 1, 2, 1, 0, 0, 4, 0, -6, 0, 1, 1, 1, 0, 1, 0);
    assert(t0 * s5 == (162) * mn(p, 1, 3, 2, 1, 0, 5, 0));
    lemma_tm(p, -27, 1, 2, 1, 0, 0, 4, 0, 1, 0, 1, 1, 0, 2, 0, 0);
    assert(t0 * s6 == (-27) * mn(p, 1, 3, 2, 0, 2, 4, 0));
    lemma_tm(p, -27, 1, 2, 1, 0, 0, 4, 0, 3, 0, 1, 1, 0, 0, 2, 1);
    assert(t0 * s7 == (-81) * mn(p, 1, 3, 2, 0, 0, 6, 1));
    lemma_tm(p, -27, 1, 2, 1, 0, 0, 4, 0, -3, 0, 0, 2, 1, 1, 0, 0);
    assert(t0 * s8 == (81) * mn(p, 1, 2, 3, 1, 1, 4, 0));
    lemma_tm(p, -27, 1, 2, 1, 0, 0, 4, 0, 3, 0, 0, 2, 0, 1, 1, 1);
    assert(t0 * s9 == (-81) * mn(p, 1, 2, 3, 0, 1, 5, 1));
    assert(t0 * q == (-81) * mn(p, 3, 2, 1, 1, 1, 4, 0) + (-81) * mn(p, 2, 3, 1, 2, 0, 4, 0) + (81) * mn(p, 2, 3, 1, 0, 0, 6, 0) + (162) * mn(p, 2, 2, 2, 0, 1, 5, 0) + (-27) * mn(p, 1, 4, 1, 0, 1, 5, 0) + (162) * mn(p, 1, 3, 2, 1, 0, 5, 0) + (-27) * mn(p, 1, 3, 2, 0, 2, 4, 0) + (-81) * mn(p, 1, 3, 2, 0, 0, 6, 1) + (81) * mn(p, 1, 2, 3, 1, 1, 4, 0) + (-81) * mn(p, 1, 2, 3, 0, 1, 5, 1));
    lemma_tm(p, -9, 1, 1, 2, 3, 1, 0, 1, 3, 2, 0, 0, 1, 1, 0, 0);
    assert(t1 * s0 == (-27) * mn(p, 3, 1, 2, 4, 2, 0, 1));
    lemma_tm(p, -9, 1, 1, 2, 3, 1, 0, 1, 3, 1, 1, 0, 2, 0, 0, 0);
    assert(t1 * s1 == (-27) * mn(p, 2, 2, 2, 5, 1, 0, 1));
    lemma_tm(p, -9, 1, 1, 2, 3, 1, 0, 1, -3, 1, 1, 0, 0, 0, 2, 0);
    assert(t1 * s2 == (27) * mn(p, 2, 2, 2, 3, 1, 2, 1));
    lemma_tm(p, -9, 1, 1, 2, 3, 1, 0, 1, -6, 1, 0, 1, 0, 1, 1, 0);
    assert(t1 * s3 == (54) * mn(p, 2, 1, 3, 3, 2, 1, 1));
    lemma_tm(p, -9, 1, 1, 2, 3, 1, 0, 1, 1, 0, 2, 0, 0, 1, 1, 0);
    assert(t1 * s4 == (-9) * mn(p, 1, 3, 2, 3, 2, 1, 1));
    lemma_tm(p, -9, 1, 1, 2, 3, 1, 0, 1, -6, 0, 1, 1, 1, 0, 1, 0);
    assert(t1 * s5 == (54) * mn(p, 1, 2, 3, 4, 1, 1, 1));
    lemma_tm(p, -9, 1, 1, 2, 3, 1, 0, 1, 1, 0, 1, 1, 0, 2, 0, 0);
    assert(t1 * s6 == (-9) * mn(p, 1, 2, 3, 3, 3, 0, 1));
    lemma_tm(p, -9, 1, 1, 2, 3, 1, 0, 1, 3, 0, 1, 1, 0, 0, 2, 1);
    assert(t1 * s7 == (-27) * mn(p, 1, 2, 3, 3, 1, 2, 2));
    lemma_tm(p, -9, 1, 1, 2, 3, 1, 0, 1, -3, 0, 0, 2, 1, 1, 0, 0);
    assert(t1 * s8 == (27) * mn(p, 1, 1, 4, 4, 2, 0, 1));
    lemma_tm(p, -9, 1, 1, 2, 3, 1, 0, 1, 3, 0, 0, 2, 0, 1, 1, 1);
    assert(t1 * s9 == (-27) * mn(p, 1, 1, 4, 3, 2, 1, 2));
    assert(t1 * q == (-27) * mn(p, 3, 1, 2, 4, 2, 0, 1) + (-27) * mn(p, 2, 2, 2, 5, 1, 0, 1) + (27) * mn(p, 2, 2, 2, 3, 1, 2, 1) + (54) * mn(p, 2, 1, 3, 3, 2, 1, 1) + (-9) * mn(p, 1, 3, 2, 3, 2, 1, 1) + (54) * mn(p, 1, 2, 3, 4, 1, 1, 1) + (-9) * mn(p, 1, 2, 3, 3, 3, 0, 1) + (-27) * mn(p, 1, 2, 3, 3, 1, 2, 2) + (27) * mn(p, 1, 1, 4, 4, 2, 0, 1) + (-27) * mn(p, 1, 1, 4, 3, 2, 1, 2));
    lemma_tm(p, -45, 1, 1, 2, 2, 1, 1, 0, 3, 2, 0, 0, 1, 1, 0, 0);
    assert(t2 * s0 == (-135) * mn(p, 3, 1, 2, 3, 2, 1, 0));
    lemma_tm(p, -45, 1, 1, 2, 2, 1, 1, 0, 3, 1, 1, 0, 2, 0, 0, 0);
    assert(t2 * s1 == (-135) * mn(p, 2, 2, 2, 4, 1, 1, 0));
    lemma_tm(p, -45, 1, 1, 2, 2, 1, 1, 0, -3, 1, 1, 0, 0, 0, 2, 0);
    assert(t2 * s2 == (135) * mn(p, 2, 2, 2, 2, 1, 3, 0));
    lemma_tm(p, -45, 1, 1, 2, 2, 1, 1, 0, -6, 1, 0, 1, 0, 1, 1, 0);
    assert(t2 * s3 == (270) * mn(p, 2, 1, 3, 2, 2, 2, 0));
    lemma_tm(p, -45, 1, 1, 2, 2, 1, 1, 0, 1, 0, 2, 0, 0, 1, 1, 0);
    assert(t2 * s4 == (-45) * mn(p, 1, 3, 2, 2, 2, 2, 0));
    lemma_tm(p, -45, 1, 1, 2, 2, 1, 1, 0, -6, 0, 1, 1, 1, 0, 1, 0);
    assert(t2 * s5 == (270) * mn(p, 1, 2, 3, 3, 1, 2, 0));
    lemma_tm(p, -45, 1, 1, 2, 2, 1, 1, 0, 1, 0, 1, 1, 0, 2, 0, 0);
    assert(t2 * s6 == (-45) * mn(p, 1, 2, 3, 2, 3, 1, 0));
    lemma_tm(p, -45, 1, 1, 2, 2, 1, 1, 0, 3, 0, 1, 1, 0, 0, 2, 1);
    assert(t2 * s7 == (-135) * mn(p, 1, 2, 3, 2, 1, 3, 1));
    lemma_tm(p, -45, 1, 1, 2, 2, 1, 1, 0, -3, 0, 0, 2, 1, 1, 0, 0);
    assert(t2 * s8 == (135) * mn(p, 1, 1, 4, 3, 2, 1, 0));
    lemma_tm(p, -45, 1, 1, 2, 2, 1, 1, 0, 3, 0, 0, 2, 0, 1, 1, 1);
    assert(t2 * s9 == (-135) * mn(p, 1, 1, 4, 2, 2, 2, 1));
    assert(t2 * q == (-135) * mn(p, 3, 1, 2, 3, 2, 1, 0) + (-135) * mn(p, 2, 2, 2, 4, 1, 1, 0) + (135) * mn(p, 2, 2, 2, 2, 1, 3, 0) + (270) * mn(p, 2, 1, 3, 2, 2, 2, 0) + (-45) * mn(p, 1, 3, 2, 2, 2, 2, 0) + (270) * mn(p, 1, 2, 3, 3, 1, 2, 0) + (-45) * mn(p, 1, 2, 3, 2, 3, 1, 0) + (-135) * mn(p, 1, 2, 3, 2, 1, 3, 1) + (135) * mn(p, 1, 1, 4, 3, 2, 1, 0) + (-135) * mn(p, 1, 1, 4, 2, 2, 2, 1));
    lemma_tm(p, 3, 1, 1, 2, 1, 3, 0, 0, 3, 2, 0, 0, 1, 1, 0, 0);
    assert(t3 * s0 == (9) * mn(p, 3, 1, 2, 2, 4, 0, 0));
    lemma_tm(p, 3, 1, 1, 2, 1, 3, 0, 0, 3, 1, 1, 0, 2, 0, 0, 0);
    assert(t3 * s1 == (9) * mn(p, 2, 2, 2, 3, 3, 0, 0));
    lemma_tm(p, 3, 1, 1, 2, 1, 3, 0, 0, -3, 1, 1, 0, 0, 0, 2, 0);
    assert(t3 * s2 == (-9) * mn(p, 2, 2, 2, 1, 3, 2, 0));
    lemma_tm(p, 3, 1, 1, 2, 1, 3, 0, 0, -6, 1, 0, 1, 0, 1, 1, 0);
    assert(t3 * s3 == (-18) * mn(p, 2, 1, 3, 1, 4, 1, 0));
    lemma_tm(p, 3, 1, 1, 2, 1, 3, 0, 0, 1, 0, 2, 0, 0, 1, 1, 0);
    assert(t3 * s4 == (3) * mn(p, 1, 3, 2, 1, 4, 1, 0));
    lemma_tm(p, 3, 1, 1, 2, 1, 3, 0, 0, -6, 0, 1, 1, 1, 0, 1, 0);
    assert(t3 * s5 == (-18) * mn(p, 1, 2, 3, 2, 3, 1, 0));
    lemma_tm(p, 3, 1, 1, 2, 1, 3, 0, 0, 1, 0, 1, 1, 0, 2, 0, 0);
    assert(t3 * s6 == (3) * mn(p, 1, 2, 3, 1, 5, 0, 0));
    lemma_tm(p, 3, 1, 1, 2, 1, 3, 0, 0, 3, 0, 1, 1, 0, 0, 2, 1);
    assert(t3 * s7 == (9) * mn(p, 1, 2, 3, 1, 3, 2, 1));
    lemma_tm(p, 3, 1, 1, 2, 1, 3, 0, 0, -3, 0, 0, 2, 1, 1, 0, 0);
    assert(t3 * s8 == (-9) * mn(p, 1, 1, 4, 2, 4, 0, 0));
    lemma_tm(p, 3, 1, 1, 2, 1, 3, 0, 0, 3, 0, 0, 2, 0, 1, 1, 1);
    assert(t3 * s9 == (9) * mn(p, 1, 1, 4, 1, 4, 1, 1));
    assert(t3 * q == (9) * mn(p, 3, 1, 2, 2, 4, 0, 0) + (9) * mn(p, 2, 2, 2, 3, 3, 0, 0) + (-9) * mn(p, 2, 2, 2, 1, 3, 2, 0) + (-18) * mn(p, 2, 1, 3, 1, 4, 1, 0) + (3) * mn(p, 1, 3, 2, 1, 4, 1, 0) + (-18) * mn(p, 1, 2, 3, 2, 3, 1, 0) + (3) * mn(p, 1, 2, 3, 1, 5, 0, 0) + (9) * mn(p, 1, 2, 3, 1, 3, 2, 1) + (-9) * mn(p, 1, 1, 4, 2, 4, 0, 0) + (9) * mn(p, 1, 1, 4, 1, 4, 1, 1));
    lemma_tm(p, 126, 1, 1, 2, 1, 1, 2, 1, 3, 2, 0, 0, 1, 1, 0, 0);
    assert(t4 * s0 == (378) * mn(p, 3, 1, 2, 2, 2, 2, 1));
    lemma_tm(p, 126, 1, 1, 2, 1, 1, 2, 1, 3, 1, 1, 0, 2, 0, 0, 0);
    assert(t4 * s1 == (378) * mn(p, 2, 2, 2, 3, 1, 2, 1));
    lemma_tm(p, 126, 1, 1, 2, 1, 1, 2, 1, -3, 1, 1, 0, 0, 0, 2, 0);
    assert(t4 * s2 == (-378) * mn(p, 2, 2, 2, 1, 1, 4, 1));
    lemma_tm(p, 126, 1, 1, 2, 1, 1, 2, 1, -6, 1, 0, 1, 0, 1, 1, 0);
    assert(t4 * s3 == (-756) * mn(p, 2, 1, 3, 1, 2, 3, 1));
    lemma_tm(p, 126, 1, 1, 2, 1, 1, 2, 1, 1, 0, 2, 0, 0, 1, 1, 0);
    assert(t4 * s4 == (126) * mn(p, 1, 3, 2, 1, 2, 3, 1));
    lemma_tm(p, 126, 1, 1, 2, 1, 1, 2, 1, -6, 0, 1, 1, 1, 0, 1, 0);
    assert(t4 * s5 == (-756) * mn(p, 1, 2, 3, 2, 1, 3, 1));
    lemma_tm(p, 126, 1, 1, 2, 1, 1, 2, 1, 1, 0, 1, 1, 0, 2, 0, 0);
    assert(t4 * s6 == (126) * mn(p, 1, 2, 3, 1, 3, 2, 1));
    lemma_tm(p, 126, 1, 1, 2, 1, 1, 2, 1, 3, 0, 1, 1, 0, 0, 2, 1);
    assert(t4 * s7 == (378) * mn(p, 1, 2, 3, 1, 1, 4, 2));
    lemma_tm(p, 126, 1, 1, 2, 1, 1, 2, 1, -3, 0, 0, 2, 1, 1, 0, 0);
    assert(t4 * s8 == (-378) * mn(p, 1, 1, 4, 2, 2, 2, 1));
    lemma_tm(p, 126, 1, 1, 2, 1, 1, 2, 1, 3, 0, 0, 2, 0, 1, 1, 1);
    assert(t4 * s9 == (378) * mn(p, 1, 1, 4, 1, 2, 3, 2));
    assert(t4 * q == (378) * mn(p, 3, 1, 2, 2, 2, 2, 1) + (378) * mn(p, 2, 2, 2, 3, 1, 2, 1) + (-378) * mn(p, 2, 2, 2, 1, 1, 4, 1) + (-756) * mn(p, 2, 1, 3, 1, 2, 3, 1) + (126) * mn(p, 1, 3, 2, 1, 2, 3, 1) + (-756) * mn(p, 1, 2, 3, 2, 1, 3, 1) + (126) * mn(p, 1, 2, 3, 1, 3, 2, 1) + (378) * mn(p, 1, 2, 3, 1, 1, 4, 2) + (-378) * mn(p, 1, 1, 4, 2, 2, 2, 1) + (378) * mn(p, 1, 1, 4, 1, 2, 3, 2));
    lemma_tm(p, -3, 1, 1, 2, 0, 3, 1, 1, 3, 2, 0, 0, 1, 1, 0, 0);
    assert(t5 * s0 == (-9) * mn(p, 3, 1, 2, 1, 4, 1, 1));
    lemma_tm(p, -3, 1, 1, 2, 0, 3, 1, 1, 3, 1, 1, 0, 2, 0, 0, 0);
    assert(t5 * s1 == (-9) * mn(p, 2, 2, 2, 2, 3, 1, 1));
    lemma_tm(p, -3, 1, 1, 2, 0, 3, 1, 1, -3, 1, 1, 0, 0, 0, 2, 0);
    assert(t5 * s2 == (9) * mn(p, 2, 2, 2, 0, 3, 3, 1));
    lemma_tm(p, -3, 1, 1, 2, 0, 3, 1, 1, -6, 1, 0, 1, 0, 1, 1, 0);
    assert(t5 * s3 == (18) * mn(p, 2, 1, 3, 0, 4, 2, 1));
    lemma_tm(p, -3, 1, 1, 2, 0, 3, 1, 1, 1, 0, 2, 0, 0, 1, 1, 0);
    assert(t5 * s4 == (-3) * mn(p, 1, 3, 2, 0, 4, 2, 1));
    lemma_tm(p, -3, 1, 1, 2, 0, 3, 1, 1, -6, 0, 1, 1, 1, 0, 1, 0);
    assert(t5 * s5 == (18) * mn(p, 1, 2, 3, 1, 3, 2, 1));
    lemma_tm(p, -3, 1, 1, 2, 0, 3, 1, 1, 1, 0, 1, 1, 0, 2, 0, 0);
    assert(t5 * s6 == (-3) * mn(p, 1, 2, 3, 0, 5, 1, 1));
    lemma_tm(p, -3, 1, 1, 2, 0, 3, 1, 1, 3, 0, 1, 1, 0, 0, 2, 1);
    assert(t5 * s7 == (-9) * mn(p, 1, 2, 3, 0, 3, 3, 2));
    lemma_tm(p, -3, 1, 1, 2, 0, 3, 1, 1, -3, 0, 0, 2, 1, 1, 0, 0);
    assert(t5 * s8 == (9) * mn(p, 1, 1, 4, 1, 4, 1, 1));
    lemma_tm(p, -3, 1, 1, 2, 0, 3, 1, 1, 3, 0, 0, 2, 0, 1, 1, 1);
    assert(t5 * s9 == (-9) * mn(p, 1, 1, 4, 0, 4, 2, 2));
    assert(t5 * q == (-9) * mn(p, 3, 1, 2, 1, 4, 1, 1) + (-9) * mn(p, 2, 2, 2, 2, 3, 1, 1) + (9) * mn(p, 2, 2, 2, 0, 3, 3, 1) + (18) * mn(p, 2, 1, 3, 0, 4, 2, 1) + (-3) * mn(p, 1, 3, 2, 0, 4, 2, 1) + (18) * mn(p, 1, 2, 3, 1, 3, 2, 1) + (-3) * mn(p, 1, 2, 3, 0, 5, 1, 1) + (-9) * mn(p, 1, 2, 3, 0, 3, 3, 2) + (9) * mn(p, 1, 1, 4, 1, 4, 1, 1) + (-9) * mn(p, 1, 1, 4, 0, 4, 2, 2));
    lemma_tm(p, -27, 1, 1, 2, 0, 1, 3, 2, 3, 2, 0, 0, 1, 1, 0, 0);
    assert(t6 * s0 == (-81) * mn(p, 3, 1, 2, 1, 2, 3, 2));
    lemma_tm(p, -27, 1, 1, 2, 0, 1, 3, 2, 3, 1, 1, 0, 2, 0, 0, 0);
    assert(t6 * s1 == (-81) * mn(p, 2, 2, 2, 2, 1, 3, 2));
    lemma_tm(p, -27, 1, 1, 2, 0, 1, 3, 2, -3, 1, 1, 0, 0, 0, 2, 0);
    assert(t6 * s2 == (81) * mn(p, 2, 2, 2, 0, 1, 5, 2));
    lemma_tm(p, -27, 1, 1, 2, 0, 1, 3, 2, -6, 1, 0, 1, 0, 1, 1, 0);
    assert(t6 * s3 == (162) * mn(p, 2, 1, 3, 0, 2, 4, 2));
    lemma_tm(p, -27, 1, 1, 2, 0, 1, 3, 2, 1, 0, 2, 0, 0, 1, 1, 0);
    assert(t6 * s4 == (-27) * mn(p, 1, 3, 2, 0, 2, 4, 2));
    lemma_tm(p, -27, 1, 1, 2, 0, 1, 3, 2, -6, 0, 1, 1, 1, 0, 1, 0);
    assert(t6 * s5 == (162) * mn(p, 1, 2, 3, 1, 1, 4, 2));
    lemma_tm(p, -27, 1, 1, 2, 0, 1, 3, 2, 1, 0, 1, 1, 0, 2, 0, 0);
    assert(t6 * s6 == (-27) * mn(p, 1, 2, 3, 0, 3, 3, 2));
    lemma_tm(p, -27, 1, 1, 2, 0, 1, 3, 2, 3, 0, 1, 1, 0, 0, 2, 1);
    assert(t6 * s7 == (-81) * mn(p, 1, 2, 3, 0, 1, 5, 3));
    lemma_tm(p, -27, 1, 1, 2, 0, 1, 3, 2, -3, 0, 0, 2, 1, 1, 0, 0);
    assert(t6 * s8 == (81) * mn(p, 1, 1, 4, 1, 2, 3, 2));
    lemma_tm(p, -27, 1, 1, 2, 0, 1, 3, 2, 3, 0, 0, 2, 0, 1, 1, 1);
    assert(t6 * s9 == (-81) * mn(p, 1, 1, 4, 0, 2, 4, 3));
    assert(t6 * q == (-81) * mn(p, 3, 1, 2, 1, 2, 3, 2) + (-81) * mn(p, 2, 2, 2, 2, 1, 3, 2) + (81) * mn(p, 2, 2, 2, 0, 1, 5, 2) + (162) * mn(p, 2, 1, 3, 0, 2, 4, 2) + (-27) * mn(p, 1, 3, 2, 0, 2, 4, 2) + (162) * mn(p, 1, 2, 3, 1, 1, 4, 2) + (-27) * mn(p, 1, 2, 3, 0, 3, 3, 2) + (-81) * mn(p, 1, 2, 3, 0, 1, 5, 3) + (81) * mn(p, 1, 1, 4, 1, 2, 3, 2) + (-81) * mn(p, 1, 1, 4, 0, 2, 4, 3));
    lemma_tm(p, -81, 1, 1, 2, 0, 1, 3, 0, 3, 2, 0, 0, 1, 1, 0, 0);
    assert(t7 * s0 == (-243) * mn(p, 3, 1, 2, 1, 2, 3, 0));
    lemma_tm(p, -81, 1, 1, 2, 0, 1, 3, 0, 3, 1, 1, 0, 2, 0, 0, 0);
    assert(t7 * s1 == (-243) * mn(p, 2, 2, 2, 2, 1, 3, 0));
    lemma_tm(p, -81, 1, 1, 2, 0, 1, 3, 0, -3, 1, 1, 0, 0, 0, 2, 0);
    assert(t7 * s2 == (243) * mn(p, 2, 2, 2, 0, 1, 5, 0));
    lemma_tm(p, -81, 1, 1, 2, 0, 1, 3, 0, -6, 1, 0, 1, 0, 1, 1, 0);
    assert(t7 * s3 == (486) * mn(p, 2, 1, 3, 0, 2, 4, 0));
    lemma_tm(p, -81, 1, 1, 2, 0, 1, 3, 0, 1, 0, 2, 0, 0, 1, 1, 0);
    assert(t7 * s4 == (-81) * mn(p, 1, 3, 2, 0, 2, 4, 0));
    lemma_tm(p, -81, 1, 1, 2, 0, 1, 3, 0, -6, 0, 1, 1, 1, 0, 1, 0);
    assert(t7 * s5 == (486) * mn(p, 1, 2, 3, 1, 1, 4, 0));
    lemma_tm(p, -81, 1, 1, 2, 0, 1, 3, 0, 1, 0, 1, 1, 0, 2, 0, 0);
    assert(t7 * s6 == (-81) * mn(p, 1, 2, 3, 0, 3, 3, 0));
    lemma_tm(p, -81, 1, 1, 2, 0, 1, 3, 0, 3, 0, 1, 1, 0, 0, 2, 1);
    assert(t7 * s7 == (-243) * mn(p, 1, 2, 3, 0, 1, 5, 1));
    lemma_tm(p, -81, 1, 1, 2, 0, 1, 3, 0, -3, 0, 0, 2, 1, 1, 0, 0);
    assert(t7 * s8 == (243) * mn(p, 1, 1, 4, 1, 2, 3, 0));
    lemma_tm(p, -81, 1, 1, 2, 0, 1, 3, 0, 3, 0, 0, 2, 0, 1, 1, 1);
    assert(t7 * s9 == (-243) * mn(p, 1, 1, 4, 0, 2, 4, 1));
    assert(t7 * q == (-243) * mn(p, 3, 1, 2, 1, 2, 3, 0) + (-243) * mn(p, 2, 2, 2, 2, 1, 3, 0) + (243) * mn(p, 2, 2, 2, 0, 1, 5, 0) + (486) * mn(p, 2, 1, 3, 0, 2, 4, 0) + (-81) * mn(p, 1, 3, 2, 0, 2, 4, 0) + (486) * mn(p, 1, 2, 3, 1, 1, 4, 0) + (-81) * mn(p, 1, 2, 3, 0, 3, 3, 0) + (-243) * mn(p, 1, 2, 3, 0, 1, 5, 1) + (243) * mn(p, 1, 1, 4, 1, 2, 3, 0) + (-243) * mn(p, 1, 1, 4, 0, 2, 4, 1));
    lemma_tm(p, -18, 1, 0, 3, 2, 2, 0, 0, 3, 2, 0, 0, 1, 1, 0, 0);
    assert(t8 * s0 == (-54) * mn(p, 3, 0, 3, 3, 3, 0, 0));
    lemma_tm(p, -18, 1, 0, 3, 2, 2, 0, 0, 3, 1, 1, 0, 2, 0, 0, 0);
    assert(t8 * s1 == (-54) * mn(p, 2, 1, 3, 4, 2, 0, 0));
    lemma_tm(p, -18, 1, 0, 3, 2, 2, 0, 0, -3, 1, 1, 0, 0, 0, 2, 0);
    assert(t8 * s2 == (54) * mn(p, 2, 1, 3, 2, 2, 2, 0));
    lemma_tm(p, -18, 1, 0, 3, 2, 2, 0, 0, -6, 1, 0, 1, 0, 1, 1, 0);
    assert(t8 * s3 == (108) * mn(p, 2, 0, 4, 2, 3, 1, 0));
    lemma_tm(p, -18, 1, 0, 3, 2, 2, 0, 0, 1, 0, 2, 0, 0, 1, 1, 0);
    assert(t8 * s4 == (-18) * mn(p, 1, 2, 3, 2, 3, 1, 0));
    lemma_tm(p, -18, 1, 0, 3, 2, 2, 0, 0, -6, 0, 1, 1, 1, 0, 1, 0);
    assert(t8 * s5 == (108) * mn(p, 1, 1, 4, 3, 2, 1, 0));
    lemma_tm(p, -18, 1, 0, 3, 2, 2, 0, 0, 1, 0, 1, 1, 0, 2, 0, 0);
    assert(t8 * s6 == (-18) * mn(p, 1, 1, 4, 2, 4, 0, 0));
    lemma_tm(p, -18, 1, 0, 3, 2, 2, 0, 0, 3, 0, 1, 1, 0, 0, 2, 1);
    assert(t8 * s7 == (-54) * mn(p, 1, 1, 4, 2, 2, 2, 1));
    lemma_tm(p, -18, 1, 0, 3, 2, 2, 0, 0, -3, 0, 0, 2, 1, 1, 0, 0);
    assert(t8 * s8 == (54) * mn(p, 1, 0, 5, 3, 3, 0, 0));
    lemma_tm(p, -18, 1, 0, 3, 2, 2, 0, 0, 3, 0, 0, 2, 0, 1, 1, 1);
    assert(t8 * s9 == (-54) * mn(p, 1, 0, 5, 2, 3, 1, 1));
    assert(t8 * q == (-54) * mn(p, 3, 0, 3, 3, 3, 0, 0) + (-54) * mn(p, 2, 1, 3, 4, 2, 0, 0) + (54) * mn(p, 2, 1, 3, 2, 2, 2, 0) + (108) * mn(p, 2, 0, 4, 2, 3, 1, 0) + (-18) * mn(p, 1, 2, 3, 2, 3, 1, 0) + (108) * mn(p, 1, 1, 4, 3, 2, 1, 0) + (-18) * mn(p, 1, 1, 4, 2, 4, 0, 0) + (-54) * mn(p, 1, 1, 4, 2, 2, 2, 1) + (54) * mn(p, 1, 0, 5, 3, 3, 0, 0) + (-54) * mn(p, 1, 0, 5, 2, 3, 1, 1));
    lemma_tm(p, 54, 1, 0, 3, 1, 2, 1, 1, 3, 2, 0, 0, 1, 1, 0, 0);
    assert(t9 * s0 == (162) * mn(p, 3, 0, 3, 2, 3, 1, 1));
    lemma_tm(p, 54, 1, 0, 3, 1, 2, 1, 1, 3, 1, 1, 0, 2, 0, 0, 0);
    assert(t9 * s1 == (162) * mn(p, 2, 1, 3, 3, 2, 1, 1));
    lemma_tm(p, 54, 1, 0, 3, 1, 2, 1, 1, -3, 1, 1, 0, 0, 0, 2, 0);
    assert(t9 * s2 == (-162) * mn(p, 2, 1, 3, 1, 2, 3, 1));
    lemma_tm(p, 54, 1, 0, 3, 1, 2, 1, 1, -6, 1, 0, 1, 0, 1, 1, 0);
    assert(t9 * s3 == (-324) * mn(p, 2, 0, 4, 1, 3, 2, 1));
    lemma_tm(p, 54, 1, 0, 3, 1, 2, 1, 1, 1, 0, 2, 0, 0, 1, 1, 0);
    assert(t9 * s4 == (54) * mn(p, 1, 2, 3, 1, 3, 2, 1));
    lemma_tm(p, 54, 1, 0, 3, 1, 2, 1, 1, -6, 0, 1, 1, 1, 0, 1, 0);
    assert(t9 * s5 == (-324) * mn(p, 1, 1, 4, 2, 2, 2, 1));
    lemma_tm(p, 54, 1, 0, 3, 1, 2, 1, 1, 1, 0, 1, 1, 0, 2, 0, 0);
    assert(t9 * s6 == (54) * mn(p, 1, 1, 4, 1, 4, 1, 1));
    lemma_tm(p, 54, 1, 0, 3, 1, 2, 1, 1, 3, 0, 1, 1, 0, 0, 2, 1);
    assert(t9 * s7 == (162) * mn(p, 1, 1, 4, 1, 2, 3, 2));
    lemma_tm(p, 54, 1, 0, 3, 1, 2, 1, 1, -3, 0, 0, 2, 1, 1, 0, 0);
    assert(t9 * s8 == (-162) * mn(p, 1, 0, 5, 2, 3, 1, 1));
    lemma_tm(p, 54, 1, 0, 3, 1, 2, 1, 1, 3, 0, 0, 2, 0, 1, 1, 1);
    assert(t9 * s9 == (162) * mn(p, 1, 0, 5, 1, 3, 2, 2));
    assert(t9 * q == (162) * mn(p, 3, 0, 3, 2, 3, 1, 1) + (162) * mn(p, 2, 1, 3, 3, 2, 1, 1) + (-162) * mn(p, 2, 1, 3, 1, 2, 3, 1) + (-324) * mn(p, 2, 0, 4, 1, 3, 2, 1) + (54) * mn(p, 1, 2, 3, 1, 3, 2, 1) + (-324) * mn(p, 1, 1, 4, 2, 2, 2, 1) + (54) * mn(p, 1, 1, 4, 1, 4, 1, 1) + (162) * mn(p, 1, 1, 4, 1, 2, 3, 2) + (-162) * mn(p, 1, 0, 5, 2, 3, 1, 1) + (162) * mn(p, 1, 0, 5, 1, 3, 2, 2));
    lemma_tm(p, -18, 1, 0, 3, 0, 2, 2, 2, 3, 2, 0, 0, 1, 1, 0, 0);
    assert(t10 * s0 == (-54) * mn(p, 3, 0, 3, 1, 3, 2, 2));
    lemma_tm(p, -18, 1, 0, 3, 0, 2, 2, 2, 3, 1, 1, 0, 2, 0, 0, 0);
    assert(t10 * s1 == (-54) * mn(p, 2, 1, 3, 2, 2, 2, 2));
    lemma_tm(p, -18, 1, 0, 3, 0, 2, 2, 2, -3, 1, 1, 0, 0, 0, 2, 0);
    assert(t10 * s2 == (54) * mn(p, 2, 1, 3, 0, 2, 4, 2));
    lemma_tm(p, -18, 1, 0, 3, 0, 2, 2, 2, -6, 1, 0, 1, 0, 1, 1, 0);
    assert(t10 * s3 == (108) * mn(p, 2, 0, 4, 0, 3, 3, 2));
    lemma_tm(p, -18, 1, 0, 3, 0, 2, 2, 2, 1, 0, 2, 0, 0, 1, 1, 0);
    assert(t10 * s4 == (-18) * mn(p, 1, 2, 3, 0, 3, 3, 2));
    lemma_tm(p, -18, 1, 0, 3, 0, 2, 2, 2, -6, 0, 1, 1, 1, 0, 1, 0);
    assert(t10 * s5 == (108) * mn(p, 1, 1, 4, 1, 2, 3, 2));
    lemma_tm(p, -18, 1, 0, 3, 0, 2, 2, 2, 1, 0, 1, 1, 0, 2, 0, 0);
    assert(t10 * s6 == (-18) * mn(p, 1, 1, 4, 0, 4, 2, 2));
    lemma_tm(p, -18, 1, 0, 3, 0, 2, 2, 2, 3, 0, 1, 1, 0, 0, 2, 1);
    assert(t10 * s7 == (-54) * mn(p, 1, 1, 4, 0, 2, 4, 3));
    lemma_tm(p, -18, 1, 0, 3, 0, 2, 2, 2, -3, 0, 0, 2, 1, 1, 0, 0);
    assert(t10 * s8 == (54) * mn(p, 1, 0, 5, 1, 3, 2, 2));
    lemma_tm(p, -18, 1, 0, 3, 0, 2, 2, 2, 3, 0, 0, 2, 0, 1, 1, 1);
    assert(t10 * s9 == (-54) * mn(p, 1, 0, 5, 0, 3, 3, 3));
    assert(t10 * q == (-54) * mn(p, 3, 0, 3, 1, 3, 2, 2) + (-54) * mn(p, 2, 1, 3, 2, 2, 2, 2) + (54) * mn(p, 2, 1, 3, 0, 2, 4, 2) + (108) * mn(p, 2, 0, 4, 0, 3, 3, 2) + (-18) * mn(p, 1, 2, 3, 0, 3, 3, 2) + (108) * mn(p, 1, 1, 4, 1, 2, 3, 2) + (-18) * mn(p, 1, 1, 4, 0, 4, 2, 2) + (-54) * mn(p, 1, 1, 4, 0, 2, 4, 3) + (54) * mn(p, 1, 0, 5, 1, 3, 2, 2) + (-54) * mn(p, 1, 0, 5, 0, 3, 3, 3));
    lemma_tm(p, -54, 1, 0, 3, 0, 2, 2, 0, 3, 2, 0, 0, 1, 1, 0, 0);
    assert(t11 * s0 == (-162) * mn(p, 3, 0, 3, 1, 3, 2, 0));
    lemma_tm(p, -54, 1, 0, 3, 0, 2, 2, 0, 3, 1, 1, 0, 2, 0, 0, 0);
    assert(t11 * s1 == (-162) * mn(p, 2, 1, 3, 2, 2, 2, 0));
    lemma_tm(p, -54, 1, 0, 3, 0, 2, 2, 0, -3, 1, 1, 0, 0, 0, 2, 0);
    assert(t11 * s2 == (162) * mn(p, 2, 1, 3, 0, 2, 4, 0));
    lemma_tm(p, -54, 1, 0, 3, 0, 2, 2, 0, -6, 1, 0, 1, 0, 1, 1, 0);
    assert(t11 * s3 == (324) * mn(p, 2, 0, 4, 0, 3, 3, 0));
    lemma_tm(p, -54, 1, 0, 3, 0, 2, 2, 0, 1, 0, 2, 0, 0, 1, 1, 0);
    assert(t11 * s4 == (-54) * mn(p, 1, 2, 3, 0, 3, 3, 0));
    lemma_tm(p, -54, 1, 0, 3, 0, 2, 2, 0, -6, 0, 1, 1, 1, 0, 1, 0);
    assert(t11 * s5 == (324) * mn(p, 1, 1, 4, 1, 2, 3, 0));
    lemma_tm(p, -54, 1, 0, 3, 0, 2, 2, 0, 1, 0, 1, 1, 0, 2, 0, 0);
    assert(t11 * s6 == (-54) * mn(p, 1, 1, 4, 0, 4, 2, 0));
    lemma_tm(p, -54, 1, 0, 3, 0, 2, 2, 0, 3, 0, 1, 1, 0, 0, 2, 1);
    assert(t11 * s7 == (-162) * mn(p, 1, 1, 4, 0, 2, 4, 1));
    lemma_tm(p, -54, 1, 0, 3, 0, 2, 2, 0, -3, 0, 0, 2, 1, 1, 0, 0);
    assert(t11 * s8 == (162) * mn(p, 1, 0, 5, 1, 3, 2, 0));
    lemma_tm(p, -54, 1, 0, 3, 0, 2, 2, 0, 3, 0, 0, 2, 0, 1, 1, 1);
    assert(t11 * s9 == (-162) * mn(p, 1, 0, 5, 0, 3, 3, 1));
    assert(t11 * q == (-162) * mn(p, 3, 0, 3, 1, 3, 2, 0) + (-162) * mn(p, 2, 1, 3, 2, 2, 2, 0) + (162) * mn(p, 2, 1, 3, 0, 2, 4, 0) + (324) * mn(p, 2, 0, 4, 0, 3, 3, 0) + (-54) * mn(p, 1, 2, 3, 0, 3, 3, 0) + (324) * mn(p, 1, 1, 4, 1, 2, 3, 0) + (-54) * mn(p, 1, 1, 4, 0, 4, 2, 0) + (-162) * mn(p, 1, 1, 4, 0, 2, 4, 1) + (162) * mn(p, 1, 0, 5, 1, 3, 2, 0) + (-162) * mn(p, 1, 0, 5, 0, 3, 3, 1));
    lemma_tm(p, 1, 0, 4, 0, 1, 2, 1, 0, 3, 2, 0, 0, 1, 1, 0, 0);
    assert(t12 * s0 == (3) * mn(p, 2, 4, 0, 2, 3, 1, 0));
    lemma_tm(p, 1, 0, 4, 0, 1, 2, 1, 0, 3, 1, 1, 0, 2, 0, 0, 0);
    assert(t12 * s1 == (3) * mn(p, 1, 5, 0, 3, 2, 1, 0));
    lemma_tm(p, 1, 0, 4, 0, 1, 2, 1, 0, -3, 1, 1, 0, 0, 0, 2, 0);
    assert(t12 * s2 == (-3) * mn(p, 1, 5, 0, 1, 2, 3, 0));
    lemma_tm(p, 1, 0, 4, 0, 1, 2, 1, 0, -6, 1, 0, 1, 0, 1, 1, 0);
    assert(t12 * s3 == (-6) * mn(p, 1, 4, 1, 1, 3, 2, 0));
    lemma_tm(p, 1, 0, 4, 0, 1, 2, 1, 0, 1, 0, 2, 0, 0, 1, 1, 0);
    assert(t12 * s4 == (1) * mn(p, 0, 6, 0, 1, 3, 2, 0));
    lemma_tm(p, 1, 0, 4, 0, 1, 2, 1, 0, -6, 0, 1, 1, 1, 0, 1, 0);
    assert(t12 * s5 == (-6) * mn(p, 0, 5, 1, 2, 2, 2, 0));
    lemma_tm(p, 1, 0, 4, 0, 1, 2, 1, 0, 1, 0, 1, 1, 0, 2, 0, 0);
    assert(t12 * s6 == (1) * mn(p, 0, 5, 1, 1, 4, 1, 0));
    lemma_tm(p, 1, 0, 4, 0, 1, 2, 1, 0, 3, 0, 1, 1, 0, 0, 2, 1);
    assert(t12 * s7 == (3) * mn(p, 0, 5, 1, 1, 2, 3, 1));
    lemma_tm(p, 1, 0, 4, 0, 1, 2, 1, 0, -3, 0, 0, 2, 1, 1, 0, 0);
    assert(t12 * s8 == (-3) * mn(p, 0, 4, 2, 2, 3, 1, 0));
    lemma_tm(p, 1, 0, 4, 0, 1, 2, 1, 0, 3, 0, 0, 2, 0, 1, 1, 1);
    assert(t12 * s9 == (3) * mn(p, 0, 4, 2, 1, 3, 2, 1));
    assert(t12 * q == (3) * mn(p, 2, 4, 0, 2, 3, 1, 0) + (3) * mn(p, 1, 5, 0, 3, 2, 1, 0) + (-3) * mn(p, 1, 5, 0, 1, 2, 3, 0) + (-6) * mn(p, 1, 4, 1, 1, 3, 2, 0) + (1) * mn(p, 0, 6, 0, 1, 3, 2, 0) + (-6) * mn(p, 0, 5, 1, 2, 2, 2, 0) + (1) * mn(p, 0, 5, 1, 1, 4, 1, 0) + (3) * mn(p, 0, 5, 1, 1, 2, 3, 1) + (-3) * mn(p, 0, 4, 2, 2, 3, 1, 0) + (3) * mn(p, 0, 4, 2, 1, 3, 2, 1));
    lemma_tm(p, -3, 0, 3, 1, 2, 1, 1, 0, 3, 2, 0, 0, 1, 1, 0, 0);
    assert(t13 * s0 == (-9) * mn(p, 2, 3, 1, 3, 2, 1, 0));
    lemma_tm(p, -3, 0, 3, 1, 2, 1, 1, 0, 3, 1, 1, 0, 2, 0, 0, 0);
    assert(t13 * s1 == (-9) * mn(p, 1, 4, 1, 4, 1, 1, 0));
    lemma_tm(p, -3, 0, 3, 1, 2, 1, 1, 0, -3, 1, 1, 0, 0, 0, 2, 0);
    assert(t13 * s2 == (9) * mn(p, 1, 4, 1, 2, 1, 3, 0));
    lemma_tm(p, -3, 0, 3, 1, 2, 1, 1, 0, -6, 1, 0, 1, 0, 1, 1, 0);
    assert(t13 * s3 == (18) * mn(p, 1, 3, 2, 2, 2, 2, 0));
    lemma_tm(p, -3, 0, 3, 1, 2, 1, 1, 0, 1, 0, 2, 0, 0, 1, 1, 0);
    assert(t13 * s4 == (-3) * mn(p, 0, 5, 1, 2, 2, 2, 0));
    lemma_tm(p, -3, 0, 3, 1, 2, 1, 1, 0, -6, 0, 1, 1, 1, 0, 1, 0);
    assert(t13 * s5 == (18) * mn(p, 0, 4, 2, 3, 1, 2, 0));
    lemma_tm(p, -3, 0, 3, 1, 2, 1, 1, 0, 1, 0, 1, 1, 0, 2, 0, 0);
    assert(t13 * s6 == (-3) * mn(p, 0, 4, 2, 2, 3, 1, 0));
    lemma_tm(p, -3, 0, 3, 1, 2, 1, 1, 0, 3, 0, 1, 1, 0, 0, 2, 1);
    assert(t13 * s7 == (-9) * mn(p, 0, 4, 2, 2, 1, 3, 1));
    lemma_tm(p, -3, 0, 3, 1, 2, 1, 1, 0, -3, 0, 0, 2, 1, 1, 0, 0);
    assert(t13 * s8 == (9) * mn(p, 0, 3, 3, 3, 2, 1, 0));
    lemma_tm(p, -3, 0, 3, 1, 2, 1, 1, 0, 3, 0, 0, 2, 0, 1, 1, 1);
    assert(t13 * s9 == (-9) * mn(p, 0, 3, 3, 2, 2, 2, 1));
    assert(t13 * q == (-9) * mn(p, 2, 3, 1, 3, 2, 1, 0) + (-9) * mn(p, 1, 4, 1, 4, 1, 1, 0) + (9) * mn(p, 1, 4, 1, 2, 1, 3, 0) + (18) * mn(p, 1, 3, 2, 2, 2, 2, 0) + (-3) * mn(p, 0, 5, 1, 2, 2, 2, 0) + (18) * mn(p, 0, 4, 2, 3, 1, 2, 0) + (-3) * mn(p, 0, 4, 2, 2, 3, 1, 0) + (-9) * mn(p, 0, 4, 2, 2, 1, 3, 1) + (9) * mn(p, 0, 3, 3, 3, 2, 1, 0) + (-9) * mn(p, 0, 3, 3, 2, 2, 2, 1));
    lemma_tm(p, 1, 0, 3, 1, 1, 3, 0, 0, 3, 2, 0, 0, 1, 1, 0, 0);
    assert(t14 * s0 == (3) * mn(p, 2, 3, 1, 2, 4, 0, 0));
    lemma_tm(p, 1, 0, 3, 1, 1, 3, 0, 0, 3, 1, 1, 0, 2, 0, 0, 0);
    assert(t14 * s1 == (3) * mn(p, 1, 4, 1, 3, 3, 0, 0));
    lemma_tm(p, 1, 0, 3, 1, 1, 3, 0, 0, -3, 1, 1, 0, 0, 0, 2, 0);
    assert(t14 * s2 == (-3) * mn(p, 1, 4, 1, 1, 3, 2, 0));
    lemma_tm(p, 1, 0, 3, 1, 1, 3, 0, 0, -6, 1, 0, 1, 0, 1, 1, 0);
    assert(t14 * s3 == (-6) * mn(p, 1, 3, 2, 1, 4, 1, 0));
    lemma_tm(p, 1, 0, 3, 1, 1, 3, 0, 0, 1, 0, 2, 0, 0, 1, 1, 0);
    assert(t14 * s4 == (1) * mn(p, 0, 5, 1, 1, 4, 1, 0));
    lemma_tm(p, 1, 0, 3, 1, 1, 3, 0, 0, -6, 0, 1, 1, 1, 0, 1, 0);
    assert(t14 * s5 == (-6) * mn(p, 0, 4, 2, 2, 3, 1, 0));
    lemma_tm(p, 1, 0, 3, 1, 1, 3, 0, 0, 1, 0, 1, 1, 0, 2, 0, 0);
    assert(t14 * s6 == (1) * mn(p, 0, 4, 2, 1, 5, 0, 0));
    lemma_tm(p, 1, 0, 3, 1, 1, 3, 0, 0, 3, 0, 1, 1, 0, 0, 2, 1);
    assert(t14 * s7 == (3) * mn(p, 0, 4, 2, 1, 3, 2, 1));
    lemma_tm(p, 1, 0, 3, 1, 1, 3, 0, 0, -3, 0, 0, 2, 1, 1, 0, 0);
    assert(t14 * s8 == (-3) * mn(p, 0, 3, 3, 2, 4, 0, 0));
    lemma_tm(p, 1, 0, 3, 1, 1, 3, 0, 0, 3, 0, 0, 2, 0, 1, 1, 1);
    assert(t14 * s9 == (3) * mn(p, 0, 3, 3, 1, 4, 1, 1));
    assert(t14 * q == (3) * mn(p, 2, 3, 1, 2, 4, 0, 0) + (3) * mn(p, 1, 4, 1, 3, 3, 0, 0) + (-3) * mn(p, 1, 4, 1, 1, 3, 2, 0) + (-6) * mn(p, 1, 3, 2, 1, 4, 1, 0) + (1) * mn(p, 0, 5, 1, 1, 4, 1, 0) + (-6) * mn(p, 0, 4, 2, 2, 3, 1, 0) + (1) * mn(p, 0, 4, 2, 1, 5, 0, 0) + (3) * mn(p, 0, 4, 2, 1, 3, 2, 1) + (-3) * mn(p, 0, 3, 3, 2, 4, 0, 0) + (3) * mn(p, 0, 3, 3, 1, 4, 1, 1));
    lemma_tm(p, -3, 0, 3, 1, 1, 1, 2, 1, 3, 2, 0, 0, 1, 1, 0, 0);
    assert(t15 * s0 == (-9) * mn(p, 2, 3, 1, 2, 2, 2, 1));
    lemma_tm(p, -3, 0, 3, 1, 1, 1, 2, 1, 3, 1, 1, 0, 2, 0, 0, 0);
    assert(t15 * s1 == (-9) * mn(p, 1, 4, 1, 3, 1, 2, 1));
    lemma_tm(p, -3, 0, 3, 1, 1, 1, 2, 1, -3, 1, 1, 0, 0, 0, 2, 0);
    assert(t15 * s2 == (9) * mn(p, 1, 4, 1, 1, 1, 4, 1));
    lemma_tm(p, -3, 0, 3, 1, 1, 1, 2, 1, -6, 1, 0, 1, 0, 1, 1, 0);
    assert(t15 * s3 == (18) * mn(p, 1, 3, 2, 1, 2, 3, 1));
    lemma_tm(p, -3, 0, 3, 1, 1, 1, 2, 1, 1, 0, 2, 0, 0, 1, 1, 0);
    assert(t15 * s4 == (-3) * mn(p, 0, 5, 1, 1, 2, 3, 1));
    lemma_tm(p, -3, 0, 3, 1, 1, 1, 2, 1, -6, 0, 1, 1, 1, 0, 1, 0);
    assert(t15 * s5 == (18) * mn(p, 0, 4, 2, 2, 1, 3, 1));
    lemma_tm(p, -3, 0, 3, 1, 1, 1, 2, 1, 1, 0, 1, 1, 0, 2, 0, 0);
    assert(t15 * s6 == (-3) * mn(p, 0, 4, 2, 1, 3, 2, 1));
    lemma_tm(p, -3, 0, 3, 1, 1, 1, 2, 1, 3, 0, 1, 1, 0, 0, 2, 1);
    assert(t15 * s7 == (-9) * mn(p, 0, 4, 2, 1, 1, 4, 2));
    lemma_tm(p, -3, 0, 3, 1, 1, 1, 2, 1, -3, 0, 0, 2, 1, 1, 0, 0);
    assert(t15 * s8 == (9) * mn(p, 0, 3, 3, 2, 2, 2, 1));
    lemma_tm(p, -3, 0, 3, 1, 1, 1, 2, 1, 3, 0, 0, 2, 0, 1, 1, 1);
    assert(t15 * s9 == (-9) * mn(p, 0, 3, 3, 1, 2, 3, 2));
    assert(t15 * q == (-9) * mn(p, 2, 3, 1, 2, 2, 2, 1) + (-9) * mn(p, 1, 4, 1, 3, 1, 2, 1) + (9) * mn(p, 1, 4, 1, 1, 1, 4, 1) + (18) * mn(p, 1, 3, 2, 1, 2, 3, 1) + (-3) * mn(p, 0, 5, 1, 1, 2, 3, 1) + (18) * mn(p, 0, 4, 2, 2, 1, 3, 1) + (-3) * mn(p, 0, 4, 2, 1, 3, 2, 1) + (-9) * mn(p, 0, 4, 2, 1, 1, 4, 2) + (9) * mn(p, 0, 3, 3, 2, 2, 2, 1) + (-9) * mn(p, 0, 3, 3, 1, 2, 3, 2));
    lemma_tm(p, 9, 0, 3, 1, 0, 1, 3, 0, 3, 2, 0, 0, 1, 1, 0, 0);
    assert(t16 * s0 == (27) * mn(p, 2, 3, 1, 1, 2, 3, 0));
    lemma_tm(p, 9, 0, 3, 1, 0, 1, 3, 0, 3, 1, 1, 0, 2, 0, 0, 0);
    assert(t16 * s1 == (27) * mn(p, 1, 4, 1, 2, 1, 3, 0));
    lemma_tm(p, 9, 0, 3, 1, 0, 1, 3, 0, -3, 1, 1, 0, 0, 0, 2, 0);
    assert(t16 * s2 == (-27) * mn(p, 1, 4, 1, 0, 1, 5, 0));
    lemma_tm(p, 9, 0, 3, 1, 0, 1, 3, 0, -6, 1, 0, 1, 0, 1, 1, 0);
    assert(t16 * s3 == (-54) * mn(p, 1, 3, 2, 0, 2, 4, 0));
    lemma_tm(p, 9, 0, 3, 1, 0, 1, 3, 0, 1, 0, 2, 0, 0, 1, 1, 0);
    assert(t16 * s4 == (9) * mn(p, 0, 5, 1, 0, 2, 4, 0));
    lemma_tm(p, 9, 0, 3, 1, 0, 1, 3, 0, -6, 0, 1, 1, 1, 0, 1, 0);
    assert(t16 * s5 == (-54) * mn(p, 0, 4, 2, 1, 1, 4, 0));
    lemma_tm(p, 9, 0, 3, 1, 0, 1, 3, 0, 1, 0, 1, 1, 0, 2, 0, 0);
    assert(t16 * s6 == (9) * mn(p, 0, 4, 2, 0, 3, 3, 0));
    lemma_tm(p, 9, 0, 3, 1, 0, 1, 3, 0, 3, 0, 1, 1, 0, 0, 2, 1);
    assert(t16 * s7 == (27) * mn(p, 0, 4, 2, 0, 1, 5, 1));
    lemma_tm(p, 9, 0, 3, 1, 0, 1, 3, 0, -3, 0, 0, 2, 1, 1, 0, 0);
    assert(t16 * s8 == (-27) * mn(p, 0, 3, 3, 1, 2, 3, 0));
    lemma_tm(p, 9, 0, 3, 1, 0, 1, 3, 0, 3, 0, 0, 2, 0, 1, 1, 1);
    assert(t16 * s9 == (27) * mn(p, 0, 3, 3, 0, 2, 4, 1));
    assert(t16 * q == (27) * mn(p, 2, 3, 1, 1, 2, 3, 0) + (27) * mn(p, 1, 4, 1, 2, 1, 3, 0) + (-27) * mn(p, 1, 4, 1, 0, 1, 5, 0) + (-54) * mn(p, 1, 3, 2, 0, 2, 4, 0) + (9) * mn(p, 0, 5, 1, 0, 2, 4, 0) + (-54) * mn(p, 0, 4, 2, 1, 1, 4, 0) + (9) * mn(p, 0, 4, 2, 0, 3, 3, 0) + (27) * mn(p, 0, 4, 2, 0, 1, 5, 1) + (-27) * mn(p, 0, 3, 3, 1, 2, 3, 0) + (27) * mn(p, 0, 3, 3, 0, 2, 4, 1));
    lemma_tm(p, -18, 0, 2, 2, 3, 0, 1, 0, 3, 2, 0, 0, 1, 1, 0, 0);
    assert(t17 * s0 == (-54) * mn(p, 2, 2, 2, 4, 1, 1, 0));
    lemma_tm(p, -18, 0, 2, 2, 3, 0, 1, 0, 3, 1, 1, 0, 2, 0, 0, 0);
    assert(t17 * s1 == (-54) * mn(p, 1, 3, 2, 5, 0, 1, 0));
    lemma_tm(p, -18, 0, 2, 2, 3, 0, 1, 0, -3, 1, 1, 0, 0, 0, 2, 0);
    assert(t17 * s2 == (54) * mn(p, 1, 3, 2, 3, 0, 3, 0));
    lemma_tm(p, -18, 0, 2, 2, 3, 0, 1, 0, -6, 1, 0, 1, 0, 1, 1, 0);
    assert(t17 * s3 == (108) * mn(p, 1, 2, 3, 3, 1, 2, 0));
    lemma_tm(p, -18, 0, 2, 2, 3, 0, 1, 0, 1, 0, 2, 0, 0, 1, 1, 0);
    assert(t17 * s4 == (-18) * mn(p, 0, 4, 2, 3, 1, 2, 0));
    lemma_tm(p, -18, 0, 2, 2, 3, 0, 1, 0, -6, 0, 1, 1, 1, 0, 1, 0);
    assert(t17 * s5 == (108) * mn(p, 0, 3, 3, 4, 0, 2, 0));
    lemma_tm(p, -18, 0, 2, 2, 3, 0, 1, 0, 1, 0, 1, 1, 0, 2, 0, 0);
    assert(t17 * s6 == (-18) * mn(p, 0, 3, 3, 3, 2, 1, 0));
    lemma_tm(p, -18, 0, 2, 2, 3, 0, 1, 0, 3, 0, 1, 1, 0, 0, 2, 1);
    assert(t17 * s7 == (-54) * mn(p, 0, 3, 3, 3, 0, 3, 1));
    lemma_tm(p, -18, 0, 2, 2, 3, 0, 1, 0, -3, 0, 0, 2, 1, 1, 0, 0);
    assert(t17 * s8 == (54) * mn(p, 0, 2, 4, 4, 1, 1, 0));
    lemma_tm(p, -18, 0, 2, 2, 3, 0, 1, 0, 3, 0, 0, 2, 0, 1, 1, 1);
    assert(t17 * s9 == (-54) * mn(p, 0, 2, 4, 3, 1, 2, 1));
    assert(t17 * q == (-54) * mn(p, 2, 2, 2, 4, 1, 1, 0) + (-54) * mn(p, 1, 3, 2, 5, 0, 1, 0) + (54) * mn(p, 1, 3, 2, 3, 0, 3, 0) + (108) * mn(p, 1, 2, 3, 3, 1, 2, 0) + (-18) * mn(p, 0, 4, 2, 3, 1, 2, 0) + (108) * mn(p, 0, 3, 3, 4, 0, 2, 0) + (-18) * mn(p, 0, 3, 3, 3, 2, 1, 0) + (-54) * mn(p, 0, 3, 3, 3, 0, 3, 1) + (54) * mn(p, 0, 2, 4, 4, 1, 1, 0) + (-54) * mn(p, 0, 2, 4, 3, 1, 2, 1));
    lemma_tm(p, 45, 0, 2, 2, 2, 0, 2, 1, 3, 2, 0, 0, 1, 1, 0, 0);
    assert(t18 * s0 == (135) * mn(p, 2, 2, 2, 3, 1, 2, 1));
    lemma_tm(p, 45, 0, 2, 2, 2, 0, 2, 1, 3, 1, 1, 0, 2, 0, 0, 0);
    assert(t18 * s1 == (135) * mn(p, 1, 3, 2, 4, 0, 2, 1));
    lemma_tm(p, 45, 0, 2, 2, 2, 0, 2, 1, -3, 1, 1, 0, 0, 0, 2, 0);
    assert(t18 * s2 == (-135) * mn(p, 1, 3, 2, 2, 0, 4, 1));
    lemma_tm(p, 45, 0, 2, 2, 2, 0, 2, 1, -6, 1, 0, 1, 0, 1, 1, 0);
    assert(t18 * s3 == (-270) * mn(p, 1, 2, 3, 2, 1, 3, 1));
    lemma_tm(p, 45, 0, 2, 2, 2, 0, 2, 1, 1, 0, 2, 0, 0, 1, 1, 0);
    assert(t18 * s4 == (45) * mn(p, 0, 4, 2, 2, 1, 3, 1));
    lemma_tm(p, 45, 0, 2, 2, 2, 0, 2, 1, -6, 0, 1, 1, 1, 0, 1, 0);
    assert(t18 * s5 == (-270) * mn(p, 0, 3, 3, 3, 0, 3, 1));
    lemma_tm(p, 45, 0, 2, 2, 2, 0, 2, 1, 1, 0, 1, 1, 0, 2, 0, 0);
    assert(t18 * s6 == (45) * mn(p, 0, 3, 3, 2, 2, 2, 1));
    lemma_tm(p, 45, 0, 2, 2, 2, 0, 2, 1, 3, 0, 1, 1, 0, 0, 2, 1);
    assert(t18 * s7 == (135) * mn(p, 0, 3, 3, 2, 0, 4, 2));
    lemma_tm(p, 45, 0, 2, 2, 2, 0, 2, 1, -3, 0, 0, 2, 1, 1, 0, 0);
    assert(t18 * s8 == (-135) * mn(p, 0, 2, 4, 3, 1, 2, 1));
    lemma_tm(p, 45, 0, 2, 2, 2, 0, 2, 1, 3, 0, 0, 2, 0, 1, 1, 1);
    assert(t18 * s9 == (135) * mn(p, 0, 2, 4, 2, 1, 3, 2));
    assert(t18 * q == (135) * mn(p, 2, 2, 2, 3, 1, 2, 1) + (135) * mn(p, 1, 3, 2, 4, 0, 2, 1) + (-135) * mn(p, 1, 3, 2, 2, 0, 4, 1) + (-270) * mn(p, 1, 2, 3, 2, 1, 3, 1) + (45) * mn(p, 0, 4, 2, 2, 1, 3, 1) + (-270) * mn(p, 0, 3, 3, 3, 0, 3, 1) + (45) * mn(p, 0, 3, 3, 2, 2, 2, 1) + (135) * mn(p, 0, 3, 3, 2, 0, 4, 2) + (-135) * mn(p, 0, 2, 4, 3, 1, 2, 1) + (135) * mn(p, 0, 2, 4, 2, 1, 3, 2));
    lemma_tm(p, -6, 0, 2, 2, 1, 2, 1, 1, 3, 2, 0, 0, 1, 1, 0, 0);
    assert(t19 * s0 == (-18) * mn(p, 2, 2, 2, 2, 3, 1, 1));
    lemma_tm(p, -6, 0, 2, 2, 1, 2, 1, 1, 3, 1, 1, 0, 2, 0, 0, 0);
    assert(t19 * s1 == (-18) * mn(p, 1, 3, 2, 3, 2, 1, 1));
    lemma_tm(p, -6, 0, 2, 2, 1, 2, 1, 1, -3, 1, 1, 0, 0, 0, 2, 0);
    assert(t19 * s2 == (18) * mn(p, 1, 3, 2, 1, 2, 3, 1));
    lemma_tm(p, -6, 0, 2, 2, 1, 2, 1, 1, -6, 1, 0, 1, 0, 1, 1, 0);
    assert(t19 * s3 == (36) * mn(p, 1, 2, 3, 1, 3, 2, 1));
    lemma_tm(p, -6, 0, 2, 2, 1, 2, 1, 1, 1, 0, 2, 0, 0, 1, 1, 0);
    assert(t19 * s4 == (-6) * mn(p, 0, 4, 2, 1, 3, 2, 1));
    lemma_tm(p, -6, 0, 2, 2, 1, 2, 1, 1, -6, 0, 1, 1, 1, 0, 1, 0);
    assert(t19 * s5 == (36) * mn(p, 0, 3, 3, 2, 2, 2, 1));
    lemma_tm(p, -6, 0, 2, 2, 1, 2, 1, 1, 1, 0, 1, 1, 0, 2, 0, 0);
    assert(t19 * s6 == (-6) * mn(p, 0, 3, 3, 1, 4, 1, 1));
    lemma_tm(p, -6, 0, 2, 2, 1, 2, 1, 1, 3, 0, 1, 1, 0, 0, 2, 1);
    assert(t19 * s7 == (-18) * mn(p, 0, 3, 3, 1, 2, 3, 2));
    lemma_tm(p, -6, 0, 2, 2, 1, 2, 1, 1, -3, 0, 0, 2, 1, 1, 0, 0);
    assert(t19 * s8 == (18) * mn(p, 0, 2, 4, 2, 3, 1, 1));
    lemma_tm(p, -6, 0, 2, 2, 1, 2, 1, 1, 3, 0, 0, 2, 0, 1, 1, 1);
    assert(t19 * s9 == (-18) * mn(p, 0, 2, 4, 1, 3, 2, 2));
    assert(t19 * q == (-18) * mn(p, 2, 2, 2, 2, 3, 1, 1) + (-18) * mn(p, 1, 3, 2, 3, 2, 1, 1) + (18) * mn(p, 1, 3, 2, 1, 2, 3, 1) + (36) * mn(p, 1, 2, 3, 1, 3, 2, 1) + (-6) * mn(p, 0, 4, 2, 1, 3, 2, 1) + (36) * mn(p, 0, 3, 3, 2, 2, 2, 1) + (-6) * mn(p, 0, 3, 3, 1, 4, 1, 1) + (-18) * mn(p, 0, 3, 3, 1, 2, 3, 2) + (18) * mn(p, 0, 2, 4, 2, 3, 1, 1) + (-18) * mn(p, 0, 2, 4, 1, 3, 2, 2));
    lemma_tm(p, -18, 0, 2, 2, 1, 0, 3, 2, 3, 2, 0, 0, 1, 1, 0, 0);
    assert(t20 * s0 == (-54) * mn(p, 2, 2, 2, 2, 1, 3, 2));
    lemma_tm(p, -18, 0, 2, 2, 1, 0, 3, 2, 3, 1, 1, 0, 2, 0, 0, 0);
    assert(t20 * s1 == (-54) * mn(p, 1, 3, 2, 3, 0, 3, 2));
    lemma_tm(p, -18, 0, 2, 2, 1, 0, 3, 2, -3, 1, 1, 0, 0, 0, 2, 0);
    assert(t20 * s2 == (54) * mn(p, 1, 3, 2, 1, 0, 5, 2));
    lemma_tm(p, -18, 0, 2, 2, 1, 0, 3, 2, -6, 1, 0, 1, 0, 1, 1, 0);
    assert(t20 * s3 == (108) * mn(p, 1, 2, 3, 1, 1, 4, 2));
    lemma_tm(p, -18, 0, 2, 2, 1, 0, 3, 2, 1, 0, 2, 0, 0, 1, 1, 0);
    assert(t20 * s4 == (-18) * mn(p, 0, 4, 2, 1, 1, 4, 2));
    lemma_tm(p, -18, 0, 2, 2, 1, 0, 3, 2, -6, 0, 1, 1, 1, 0, 1, 0);
    assert(t20 * s5 == (108) * mn(p, 0, 3, 3, 2, 0, 4, 2));
    lemma_tm(p, -18, 0, 2, 2, 1, 0, 3, 2, 1, 0, 1, 1, 0, 2, 0, 0);
    assert(t20 * s6 == (-18) * mn(p, 0, 3, 3, 1, 2, 3, 2));
    lemma_tm(p, -18, 0, 2, 2, 1, 0, 3, 2, 3, 0, 1, 1, 0, 0, 2, 1);
    assert(t20 * s7 == (-54) * mn(p, 0, 3, 3, 1, 0, 5, 3));
    lemma_tm(p, -18, 0, 2, 2, 1, 0, 3, 2, -3, 0, 0, 2, 1, 1, 0, 0);
    assert(t20 * s8 == (54) * mn(p, 0, 2, 4, 2, 1, 3, 2));
    lemma_tm(p, -18, 0, 2, 2, 1, 0, 3, 2, 3, 0, 0, 2, 0, 1, 1, 1);
    assert(t20 * s9 == (-54) * mn(p, 0, 2, 4, 1, 1, 4, 3));
    assert(t20 * q == (-54) * mn(p, 2, 2, 2, 2, 1, 3, 2) + (-54) * mn(p, 1, 3, 2, 3, 0, 3, 2) + (54) * mn(p, 1, 3, 2, 1, 0, 5, 2) + (108) * mn(p, 1, 2, 3, 1, 1, 4, 2) + (-18) * mn(p, 0, 4, 2, 1, 1, 4, 2) + (108) * mn(p, 0, 3, 3, 2, 0, 4, 2) + (-18) * mn(p, 0, 3, 3, 1, 2, 3, 2) + (-54) * mn(p, 0, 3, 3, 1, 0, 5, 3) + (54) * mn(p, 0, 2, 4, 2, 1, 3, 2) + (-54) * mn(p, 0, 2, 4, 1, 1, 4, 3));
    lemma_tm(p, -54, 0, 2, 2, 1, 0, 3, 0, 3, 2, 0, 0, 1, 1, 0, 0);
    assert(t21 * s0 == (-162) * mn(p, 2, 2, 2, 2, 1, 3, 0));
    lemma_tm(p, -54, 0, 2, 2, 1, 0, 3, 0, 3, 1, 1, 0, 2, 0, 0, 0);
    assert(t21 * s1 == (-162) * mn(p, 1, 3, 2, 3, 0, 3, 0));
    lemma_tm(p, -54, 0, 2, 2, 1, 0, 3, 0, -3, 1, 1, 0, 0, 0, 2, 0);
    assert(t21 * s2 == (162) * mn(p, 1, 3, 2, 1, 0, 5, 0));
    lemma_tm(p, -54, 0, 2, 2, 1, 0, 3, 0, -6, 1, 0, 1, 0, 1, 1, 0);
    assert(t21 * s3 == (324) * mn(p, 1, 2, 3, 1, 1, 4, 0));
    lemma_tm(p, -54, 0, 2, 2, 1, 0, 3, 0, 1, 0, 2, 0, 0, 1, 1, 0);
    assert(t21 * s4 == (-54) * mn(p, 0, 4, 2, 1, 1, 4, 0));
    lemma_tm(p, -54, 0, 2, 2, 1, 0, 3, 0, -6, 0, 1, 1, 1, 0, 1, 0);
    assert(t21 * s5 == (324) * mn(p, 0, 3, 3, 2, 0, 4, 0));
    lemma_tm(p, -54, 0, 2, 2, 1, 0, 3, 0, 1, 0, 1, 1, 0, 2, 0, 0);
    assert(t21 * s6 == (-54) * mn(p, 0, 3, 3, 1, 2, 3, 0));
    lemma_tm(p, -54, 0, 2, 2, 1, 0, 3, 0, 3, 0, 1, 1, 0, 0, 2, 1);
    assert(t21 * s7 == (-162) * mn(p, 0, 3, 3, 1, 0, 5, 1));
    lemma_tm(p, -54, 0, 2, 2, 1, 0, 3, 0, -3, 0, 0, 2, 1, 1, 0, 0);
    assert(t21 * s8 == (162) * mn(p, 0, 2, 4, 2, 1, 3, 0));
    lemma_tm(p, -54, 0, 2, 2, 1, 0, 3, 0, 3, 0, 0, 2, 0, 1, 1, 1);
    assert(t21 * s9 == (-162) * mn(p, 0, 2, 4, 1, 1, 4, 1));
    assert(t21 * q == (-162) * mn(p, 2, 2, 2, 2, 1, 3, 0) + (-162) * mn(p, 1, 3, 2, 3, 0, 3, 0) + (162) * mn(p, 1, 3, 2, 1, 0, 5, 0) + (324) * mn(p, 1, 2, 3, 1, 1, 4, 0) + (-54) * mn(p, 0, 4, 2, 1, 1, 4, 0) + (324) * mn(p, 0, 3, 3, 2, 0, 4, 0) + (-54) * mn(p, 0, 3, 3, 1, 2, 3, 0) + (-162) * mn(p, 0, 3, 3, 1, 0, 5, 1) + (162) * mn(p, 0, 2, 4, 2, 1, 3, 0) + (-162) * mn(p, 0, 2, 4, 1, 1, 4, 1));
    lemma_tm(p, 18, 0, 2, 2, 0, 2, 2, 0, 3, 2, 0, 0, 1, 1, 0, 0);
    assert(t22 * s0 == (54) * mn(p, 2, 2, 2, 1, 3, 2, 0));
    lemma_tm(p, 18, 0, 2, 2, 0, 2, 2, 0, 3, 1, 1, 0, 2, 0, 0, 0);
    assert(t22 * s1 == (54) * mn(p, 1, 3, 2, 2, 2, 2, 0));
    lemma_tm(p, 18, 0, 2, 2, 0, 2, 2, 0, -3, 1, 1, 0, 0, 0, 2, 0);
    assert(t22 * s2 == (-54) * mn(p, 1, 3, 2, 0, 2, 4, 0));
    lemma_tm(p, 18, 0, 2, 2, 0, 2, 2, 0, -6, 1, 0, 1, 0, 1, 1, 0);
    assert(t22 * s3 == (-108) * mn(p, 1, 2, 3, 0, 3, 3, 0));
    lemma_tm(p, 18, 0, 2, 2, 0, 2, 2, 0, 1, 0, 2, 0, 0, 1, 1, 0);
    assert(t22 * s4 == (18) * mn(p, 0, 4, 2, 0, 3, 3, 0));
    lemma_tm(p, 18, 0, 2, 2, 0, 2, 2, 0, -6, 0, 1, 1, 1, 0, 1, 0);
    assert(t22 * s5 == (-108) * mn(p, 0, 3, 3, 1, 2, 3, 0));
    lemma_tm(p, 18, 0, 2, 2, 0, 2, 2, 0, 1, 0, 1, 1, 0, 2, 0, 0);
    assert(t22 * s6 == (18) * mn(p, 0, 3, 3, 0, 4, 2, 0));
    lemma_tm(p, 18, 0, 2, 2, 0, 2, 2, 0, 3, 0, 1, 1, 0, 0, 2, 1);
    assert(t22 * s7 == (54) * mn(p, 0, 3, 3, 0, 2, 4, 1));
    lemma_tm(p, 18, 0, 2, 2, 0, 2, 2, 0, -3, 0, 0, 2, 1, 1, 0, 0);
    assert(t22 * s8 == (-54) * mn(p, 0, 2, 4, 1, 3, 2, 0));
    lemma_tm(p, 18, 0, 2, 2, 0, 2, 2, 0, 3, 0, 0, 2, 0, 1, 1, 1);
    assert(t22 * s9 == (54) * mn(p, 0, 2, 4, 0, 3, 3, 1));
    assert(t22 * q == (54) * mn(p, 2, 2, 2, 1, 3, 2, 0) + (54) * mn(p, 1, 3, 2, 2, 2, 2, 0) + (-54) * mn(p, 1, 3, 2, 0, 2, 4, 0) + (-108) * mn(p, 1, 2, 3, 0, 3, 3, 0) + (18) * mn(p, 0, 4, 2, 0, 3, 3, 0) + (-108) * mn(p, 0, 3, 3, 1, 2, 3, 0) + (18) * mn(p, 0, 3, 3, 0, 4, 2, 0) + (54) * mn(p, 0, 3, 3, 0, 2, 4, 1) + (-54) * mn(p, 0, 2, 4, 1, 3, 2, 0) + (54) * mn(p, 0, 2, 4, 0, 3, 3, 1));
    lemma_tm(p, 27, 0, 2, 2, 0, 0, 4, 1, 3, 2, 0, 0, 1, 1, 0, 0);
    assert(t23 * s0 == (81) * mn(p, 2, 2, 2, 1, 1, 4, 1));
    lemma_tm(p, 27, 0, 2, 2, 0, 0, 4, 1, 3, 1, 1, 0, 2, 0, 0, 0);
    assert(t23 * s1 == (81) * mn(p, 1, 3, 2, 2, 0, 4, 1));
    lemma_tm(p, 27, 0, 2, 2, 0, 0, 4, 1, -3, 1, 1, 0, 0, 0, 2, 0);
    assert(t23 * s2 == (-81) * mn(p, 1, 3, 2, 0, 0, 6, 1));
    lemma_tm(p, 27, 0, 2, 2, 0, 0, 4, 1, -6, 1, 0, 1, 0, 1, 1, 0);
    assert(t23 * s3 == (-162) * mn(p, 1, 2, 3, 0, 1, 5, 1));
    lemma_tm(p, 27, 0, 2, 2, 0, 0, 4, 1, 1, 0, 2, 0, 0, 1, 1, 0);
    assert(t23 * s4 == (27) * mn(p, 0, 4, 2, 0, 1, 5, 1));
    lemma_tm(p, 27, 0, 2, 2, 0, 0, 4, 1, -6, 0, 1, 1, 1, 0, 1, 0);
    assert(t23 * s5 == (-162) * mn(p, 0, 3, 3, 1, 0, 5, 1));
    lemma_tm(p, 27, 0, 2, 2, 0, 0, 4, 1, 1, 0, 1, 1, 0, 2, 0, 0);
    assert(t23 * s6 == (27) * mn(p, 0, 3, 3, 0, 2, 4, 1));
    lemma_tm(p, 27, 0, 2, 2, 0, 0, 4, 1, 3, 0, 1, 1, 0, 0, 2, 1);
    assert(t23 * s7 == (81) * mn(p, 0, 3, 3, 0, 0, 6, 2));
    lemma_tm(p, 27, 0, 2, 2, 0, 0, 4, 1, -3, 0, 0, 2, 1, 1, 0, 0);
    assert(t23 * s8 == (-81) * mn(p, 0, 2, 4, 1, 1, 4, 1));
    lemma_tm(p, 27, 0, 2, 2, 0, 0, 4, 1, 3, 0, 0, 2, 0, 1, 1, 1);
    assert(t23 * s9 == (81) * mn(p, 0, 2, 4, 0, 1, 5, 2));
    assert(t23 * q == (81) * mn(p, 2, 2, 2, 1, 1, 4, 1) + (81) * mn(p, 1, 3, 2, 2, 0, 4, 1) + (-81) * mn(p, 1, 3, 2, 0, 0, 6, 1) + (-162) * mn(p, 1, 2, 3, 0, 1, 5, 1) + (27) * mn(p, 0, 4, 2, 0, 1, 5, 1) + (-162) * mn(p, 0, 3, 3, 1, 0, 5, 1) + (27) * mn(p, 0, 3, 3, 0, 2, 4, 1) + (81) * mn(p, 0, 3, 3, 0, 0, 6, 2) + (-81) * mn(p, 0, 2, 4, 1, 1, 4, 1) + (81) * mn(p, 0, 2, 4, 0, 1, 5, 2));
    lemma_tm(p, -9, 0, 1, 3, 3, 1, 0, 0, 3, 2, 0, 0, 1, 1, 0, 0);
    assert(t24 * s0 == (-27) * mn(p, 2, 1, 3, 4, 2, 0, 0));
    lemma_tm(p, -9, 0, 1, 3, 3, 1, 0, 0, 3, 1, 1, 0, 2, 0, 0, 0);
    assert(t24 * s1 == (-27) * mn(p, 1, 2, 3, 5, 1, 0, 0));
    lemma_tm(p, -9, 0, 1, 3, 3, 1, 0, 0, -3, 1, 1, 0, 0, 0, 2, 0);
    assert(t24 * s2 == (27) * mn(p, 1, 2, 3, 3, 1, 2, 0));
    lemma_tm(p, -9, 0, 1, 3, 3, 1, 0, 0, -6, 1, 0, 1, 0, 1, 1, 0);
    assert(t24 * s3 == (54) * mn(p, 1, 1, 4, 3, 2, 1, 0));
    lemma_tm(p, -9, 0, 1, 3, 3, 1, 0, 0, 1, 0, 2, 0, 0, 1, 1, 0);
    assert(t24 * s4 == (-9) * mn(p, 0, 3, 3, 3, 2, 1, 0));
    lemma_tm(p, -9, 0, 1, 3, 3, 1, 0, 0, -6, 0, 1, 1, 1, 0, 1, 0);
    assert(t24 * s5 == (54) * mn(p, 0, 2, 4, 4, 1, 1, 0));
    lemma_tm(p, -9, 0, 1, 3, 3, 1, 0, 0, 1, 0, 1, 1, 0, 2, 0, 0);
    assert(t24 * s6 == (-9) * mn(p, 0, 2, 4, 3, 3, 0, 0));
    lemma_tm(p, -9, 0, 1, 3, 3, 1, 0, 0, 3, 0, 1, 1, 0, 0, 2, 1);
    assert(t24 * s7 == (-27) * mn(p, 0, 2, 4, 3, 1, 2, 1));
    lemma_tm(p, -9, 0, 1, 3, 3, 1, 0, 0, -3, 0, 0, 2, 1, 1, 0, 0);
    assert(t24 * s8 == (27) * mn(p, 0, 1, 5, 4, 2, 0, 0));
    lemma_tm(p, -9, 0, 1, 3, 3, 1, 0, 0, 3, 0, 0, 2, 0, 1, 1, 1);
    assert(t24 * s9 == (-27) * mn(p, 0, 1, 5, 3, 2, 1, 1));
    assert(t24 * q == (-27) * mn(p, 2, 1, 3, 4, 2, 0, 0) + (-27) * mn(p, 1, 2, 3, 5, 1, 0, 0) + (27) * mn(p, 1, 2, 3, 3, 1, 2, 0) + (54) * mn(p, 1, 1, 4, 3, 2, 1, 0) + (-9) * mn(p, 0, 3, 3, 3, 2, 1, 0) + (54) * mn(p, 0, 2, 4, 4, 1, 1, 0) + (-9) * mn(p, 0, 2, 4, 3, 3, 0, 0) + (-27) * mn(p, 0, 2, 4, 3, 1, 2, 1) + (27) * mn(p, 0, 1, 5, 4, 2, 0, 0) + (-27) * mn(p, 0, 1, 5, 3, 2, 1, 1));
    lemma_tm(p, 45, 0, 1, 3, 2, 1, 1, 1, 3, 2, 0, 0, 1, 1, 0, 0);
    assert(t25 * s0 == (135) * mn(p, 2, 1, 3, 3, 2, 1, 1));
    lemma_tm(p, 45, 0, 1, 3, 2, 1, 1, 1, 3, 1, 1, 0, 2, 0, 0, 0);
    assert(t25 * s1 == (135) * mn(p, 1, 2, 3, 4, 1, 1, 1));
    lemma_tm(p, 45, 0, 1, 3, 2, 1, 1, 1, -3, 1, 1, 0, 0, 0, 2, 0);
    assert(t25 * s2 == (-135) * mn(p, 1, 2, 3, 2, 1, 3, 1));
    lemma_tm(p, 45, 0, 1, 3, 2, 1, 1, 1, -6, 1, 0, 1, 0, 1, 1, 0);
    assert(t25 * s3 == (-270) * mn(p, 1, 1, 4, 2, 2, 2, 1));
    lemma_tm(p, 45, 0, 1, 3, 2, 1, 1, 1, 1, 0, 2, 0, 0, 1, 1, 0);
    assert(t25 * s4 == (45) * mn(p, 0, 3, 3, 2, 2, 2, 1));
    lemma_tm(p, 45, 0, 1, 3, 2, 1, 1, 1, -6, 0, 1, 1, 1, 0, 1, 0);
    assert(t25 * s5 == (-270) * mn(p, 0, 2, 4, 3, 1, 2, 1));
    lemma_tm(p, 45, 0, 1, 3, 2, 1, 1, 1, 1, 0, 1, 1, 0, 2, 0, 0);
    assert(t25 * s6 == (45) * mn(p, 0, 2, 4, 2, 3, 1, 1));
    lemma_tm(p, 45, 0, 1, 3, 2, 1, 1, 1, 3, 0, 1, 1, 0, 0, 2, 1);
    assert(t25 * s7 == (135) * mn(p, 0, 2, 4, 2, 1, 3, 2));
    lemma_tm(p, 45, 0, 1, 3, 2, 1, 1, 1, -3, 0, 0, 2, 1, 1, 0, 0);
    assert(t25 * s8 == (-135) * mn(p, 0, 1, 5, 3, 2, 1, 1));
    lemma_tm(p, 45, 0, 1, 3, 2, 1, 1, 1, 3, 0, 0, 2, 0, 1, 1, 1);
    assert(t25 * s9 == (135) * mn(p, 0, 1, 5, 2, 2, 2, 2));
    assert(t25 * q == (135) * mn(p, 2, 1, 3, 3, 2, 1, 1) + (135) * mn(p, 1, 2, 3, 4, 1, 1, 1) + (-135) * mn(p, 1, 2, 3, 2, 1, 3, 1) + (-270) * mn(p, 1, 1, 4, 2, 2, 2, 1) + (45) * mn(p, 0, 3, 3, 2, 2, 2, 1) + (-270) * mn(p, 0, 2, 4, 3, 1, 2, 1) + (45) * mn(p, 0, 2, 4, 2, 3, 1, 1) + (135) * mn(p, 0, 2, 4, 2, 1, 3, 2) + (-135) * mn(p, 0, 1, 5, 3, 2, 1, 1) + (135) * mn(p, 0, 1, 5, 2, 2, 2, 2));
    lemma_tm(p, -3, 0, 1, 3, 1, 3, 0, 1, 3, 2, 0, 0, 1, 1, 0, 0);
    assert(t26 * s0 == (-9) * mn(p, 2, 1, 3, 2, 4, 0, 1));
    lemma_tm(p, -3, 0, 1, 3, 1, 3, 0, 1, 3, 1, 1, 0, 2, 0, 0, 0);
    assert(t26 * s1 == (-9) * mn(p, 1, 2, 3, 3, 3, 0, 1));
    lemma_tm(p, -3, 0, 1, 3, 1, 3, 0, 1, -3, 1, 1, 0, 0, 0, 2, 0);
    assert(t26 * s2 == (9) * mn(p, 1, 2, 3, 1, 3, 2, 1));
    lemma_tm(p, -3, 0, 1, 3, 1, 3, 0, 1, -6, 1, 0, 1, 0, 1, 1, 0);
    assert(t26 * s3 == (18) * mn(p, 1, 1, 4, 1, 4, 1, 1));
    lemma_tm(p, -3, 0, 1, 3, 1, 3, 0, 1, 1, 0, 2, 0, 0, 1, 1, 0);
    assert(t26 * s4 == (-3) * mn(p, 0, 3, 3, 1, 4, 1, 1));
    lemma_tm(p, -3, 0, 1, 3, 1, 3, 0, 1, -6, 0, 1, 1, 1, 0, 1, 0);
    assert(t26 * s5 == (18) * mn(p, 0, 2, 4, 2, 3, 1, 1));
    lemma_tm(p, -3, 0, 1, 3, 1, 3, 0, 1, 1, 0, 1, 1, 0, 2, 0, 0);
    assert(t26 * s6 == (-3) * mn(p, 0, 2, 4, 1, 5, 0, 1));
    lemma_tm(p, -3, 0, 1, 3, 1, 3, 0, 1, 3, 0, 1, 1, 0, 0, 2, 1);
    assert(t26 * s7 == (-9) * mn(p, 0, 2, 4, 1, 3, 2, 2));
    lemma_tm(p, -3, 0, 1, 3, 1, 3, 0, 1, -3, 0, 0, 2, 1, 1, 0, 0);
    assert(t26 * s8 == (9) * mn(p, 0, 1, 5, 2, 4, 0, 1));
    lemma_tm(p, -3, 0, 1, 3, 1, 3, 0, 1, 3, 0, 0, 2, 0, 1, 1, 1);
    assert(t26 * s9 == (-9) * mn(p, 0, 1, 5, 1, 4, 1, 2));
    assert(t26 * q == (-9) * mn(p, 2, 1, 3, 2, 4, 0, 1) + (-9) * mn(p, 1, 2, 3, 3, 3, 0, 1) + (9) * mn(p, 1, 2, 3, 1, 3, 2, 1) + (18) * mn(p, 1, 1, 4, 1, 4, 1, 1) + (-3) * mn(p, 0, 3, 3, 1, 4, 1, 1) + (18) * mn(p, 0, 2, 4, 2, 3, 1, 1) + (-3) * mn(p, 0, 2, 4, 1, 5, 0, 1) + (-9) * mn(p, 0, 2, 4, 1, 3, 2, 2) + (9) * mn(p, 0, 1, 5, 2, 4, 0, 1) + (-9) * mn(p, 0, 1, 5, 1, 4, 1, 2));
    lemma_tm(p, -27, 0, 1, 3, 1, 1, 2, 2, 3, 2, 0, 0, 1, 1, 0, 0);
    assert(t27 * s0 == (-81) * mn(p, 2, 1, 3, 2, 2, 2, 2));
    lemma_tm(p, -27, 0, 1, 3, 1, 1, 2, 2, 3, 1, 1, 0, 2, 0, 0, 0);
    assert(t27 * s1 == (-81) * mn(p, 1, 2, 3, 3, 1, 2, 2));
    lemma_tm(p, -27, 0, 1, 3, 1, 1, 2, 2, -3, 1, 1, 0, 0, 0, 2, 0);
    assert(t27 * s2 == (81) * mn(p, 1, 2, 3, 1, 1, 4, 2));
    lemma_tm(p, -27, 0, 1, 3, 1, 1, 2, 2, -6, 1, 0, 1, 0, 1, 1, 0);
    assert(t27 * s3 == (162) * mn(p, 1, 1, 4, 1, 2, 3, 2));
    lemma_tm(p, -27, 0, 1, 3, 1, 1, 2, 2, 1, 0, 2, 0, 0, 1, 1, 0);
    assert(t27 * s4 == (-27) * mn(p, 0, 3, 3, 1, 2, 3, 2));
    lemma_tm(p, -27, 0, 1, 3, 1, 1, 2, 2, -6, 0, 1, 1, 1, 0, 1, 0);
    assert(t27 * s5 == (162) * mn(p, 0, 2, 4, 2, 1, 3, 2));
    lemma_tm(p, -27, 0, 1, 3, 1, 1, 2, 2, 1, 0, 1, 1, 0, 2, 0, 0);
    assert(t27 * s6 == (-27) * mn(p, 0, 2, 4, 1, 3, 2, 2));
    lemma_tm(p, -27, 0, 1, 3, 1, 1, 2, 2, 3, 0, 1, 1, 0, 0, 2, 1);
    assert(t27 * s7 == (-81) * mn(p, 0, 2, 4, 1, 1, 4, 3));
    lemma_tm(p, -27, 0, 1, 3, 1, 1, 2, 2, -3, 0, 0, 2, 1, 1, 0, 0);
    assert(t27 * s8 == (81) * mn(p, 0, 1, 5, 2, 2, 2, 2));
    lemma_tm(p, -27, 0, 1, 3, 1, 1, 2, 2, 3, 0, 0, 2, 0, 1, 1, 1);
    assert(t27 * s9 == (-81) * mn(p, 0, 1, 5, 1, 2, 3, 3));
    assert(t27 * q == (-81) * mn(p, 2, 1, 3, 2, 2, 2, 2) + (-81) * mn(p, 1, 2, 3, 3, 1, 2, 2) + (81) * mn(p, 1, 2, 3, 1, 1, 4, 2) + (162) * mn(p, 1, 1, 4, 1, 2, 3, 2) + (-27) * mn(p, 0, 3, 3, 1, 2, 3, 2) + (162) * mn(p, 0, 2, 4, 2, 1, 3, 2) + (-27) * mn(p, 0, 2, 4, 1, 3, 2, 2) + (-81) * mn(p, 0, 2, 4, 1, 1, 4, 3) + (81) * mn(p, 0, 1, 5, 2, 2, 2, 2) + (-81) * mn(p, 0, 1, 5, 1, 2, 3, 3));
    lemma_tm(p, -81, 0, 1, 3, 1, 1, 2, 0, 3, 2, 0, 0, 1, 1, 0, 0);
    assert(t28 * s0 == (-243) * mn(p, 2, 1, 3, 2, 2, 2, 0));
    lemma_tm(p, -81, 0, 1, 3, 1, 1, 2, 0, 3, 1, 1, 0, 2, 0, 0, 0);
    assert(t28 * s1 == (-243) * mn(p, 1, 2, 3, 3, 1, 2, 0));
    lemma_tm(p, -81, 0, 1, 3, 1, 1, 2, 0, -3, 1, 1, 0, 0, 0, 2, 0);
    assert(t28 * s2 == (243) * mn(p, 1, 2, 3, 1, 1, 4, 0));
    lemma_tm(p, -81, 0, 1, 3, 1, 1, 2, 0, -6, 1, 0, 1, 0, 1, 1, 0);
    assert(t28 * s3 == (486) * mn(p, 1, 1, 4, 1, 2, 3, 0));
    lemma_tm(p, -81, 0, 1, 3, 1, 1, 2, 0, 1, 0, 2, 0, 0, 1, 1, 0);
    assert(t28 * s4 == (-81) * mn(p, 0, 3, 3, 1, 2, 3, 0));
    lemma_tm(p, -81, 0, 1, 3, 1, 1, 2, 0, -6, 0, 1, 1, 1, 0, 1, 0);
    assert(t28 * s5 == (486) * mn(p, 0, 2, 4, 2, 1, 3, 0));
    lemma_tm(p, -81, 0, 1, 3, 1, 1, 2, 0, 1, 0, 1, 1, 0, 2, 0, 0);
    assert(t28 * s6 == (-81) * mn(p, 0, 2, 4, 1, 3, 2, 0));
    lemma_tm(p, -81, 0, 1, 3, 1, 1, 2, 0, 3, 0, 1, 1, 0, 0, 2, 1);
    assert(t28 * s7 == (-243) * mn(p, 0, 2, 4, 1, 1, 4, 1));
    lemma_tm(p, -81, 0, 1, 3, 1, 1, 2, 0, -3, 0, 0, 2, 1, 1, 0, 0);
    assert(t28 * s8 == (243) * mn(p, 0, 1, 5, 2, 2, 2, 0));
    lemma_tm(p, -81, 0, 1, 3, 1, 1, 2, 0, 3, 0, 0, 2, 0, 1, 1, 1);
    assert(t28 * s9 == (-243) * mn(p, 0, 1, 5, 1, 2, 3, 1));
    assert(t28 * q == (-243) * mn(p, 2, 1, 3, 2, 2, 2, 0) + (-243) * mn(p, 1, 2, 3, 3, 1, 2, 0) + (243) * mn(p, 1, 2, 3, 1, 1, 4, 0) + (486) * mn(p, 1, 1, 4, 1, 2, 3, 0) + (-81) * mn(p, 0, 3, 3, 1, 2, 3, 0) + (486) * mn(p, 0, 2, 4, 2, 1, 3, 0) + (-81) * mn(p, 0, 2, 4, 1, 3, 2, 0) + (-243) * mn(p, 0, 2, 4, 1, 1, 4, 1) + (243) * mn(p, 0, 1, 5, 2, 2, 2, 0) + (-243) * mn(p, 0, 1, 5, 1, 2, 3, 1));
    lemma_tm(p, 9, 0, 1, 3, 0, 3, 1, 0, 3, 2, 0, 0, 1, 1, 0, 0);
    assert(t29 * s0 == (27) * mn(p, 2, 1, 3, 1, 4, 1, 0));
    lemma_tm(p, 9, 0, 1, 3, 0, 3, 1, 0, 3, 1, 1, 0, 2, 0, 0, 0);
    assert(t29 * s1 == (27) * mn(p, 1, 2, 3, 2, 3, 1, 0));
    lemma_tm(p, 9, 0, 1, 3, 0, 3, 1, 0, -3, 1, 1, 0, 0, 0, 2, 0);
    assert(t29 * s2 == (-27) * mn(p, 1, 2, 3, 0, 3, 3, 0));
    lemma_tm(p, 9, 0, 1, 3, 0, 3, 1, 0, -6, 1, 0, 1, 0, 1, 1, 0);
    assert(t29 * s3 == (-54) * mn(p, 1, 1, 4, 0, 4, 2, 0));
    lemma_tm(p, 9, 0, 1, 3, 0, 3, 1, 0, 1, 0, 2, 0, 0, 1, 1, 0);
    assert(t29 * s4 == (9) * mn(p, 0, 3, 3, 0, 4, 2, 0));
    lemma_tm(p, 9, 0, 1, 3, 0, 3, 1, 0, -6, 0, 1, 1, 1, 0, 1, 0);
    assert(t29 * s5 == (-54) * mn(p, 0, 2, 4, 1, 3, 2, 0));
    lemma_tm(p, 9, 0, 1, 3, 0, 3, 1, 0, 1, 0, 1, 1, 0, 2, 0, 0);
    assert(t29 * s6 == (9) * mn(p, 0, 2, 4, 0, 5, 1, 0));
    lemma_tm(p, 9, 0, 1, 3, 0, 3, 1, 0, 3, 0, 1, 1, 0, 0, 2, 1);
    assert(t29 * s7 == (27) * mn(p, 0, 2, 4, 0, 3, 3, 1));
    lemma_tm(p, 9, 0, 1, 3, 0, 3, 1, 0, -3, 0, 0, 2, 1, 1, 0, 0);
    assert(t29 * s8 == (-27) * mn(p, 0, 1, 5, 1, 4, 1, 0));
    lemma_tm(p, 9, 0, 1, 3, 0, 3, 1, 0, 3, 0, 0, 2, 0, 1, 1, 1);
    assert(t29 * s9 == (27) * mn(p, 0, 1, 5, 0, 4, 2, 1));
    assert(t29 * q == (27) * mn(p, 2, 1, 3, 1, 4, 1, 0) + (27) * mn(p, 1, 2, 3, 2, 3, 1, 0) + (-27) * mn(p, 1, 2, 3, 0, 3, 3, 0) + (-54) * mn(p, 1, 1, 4, 0, 4, 2, 0) + (9) * mn(p, 0, 3, 3, 0, 4, 2, 0) + (-54) * mn(p, 0, 2, 4, 1, 3, 2, 0) + (9) * mn(p, 0, 2, 4, 0, 5, 1, 0) + (27) * mn(p, 0, 2, 4, 0, 3, 3, 1) + (-27) * mn(p, 0, 1, 5, 1, 4, 1, 0) + (27) * mn(p, 0, 1, 5, 0, 4, 2, 1));
    lemma_tm(p, 54, 0, 1, 3, 0, 1, 3, 1, 3, 2, 0, 0, 1, 1, 0, 0);
    assert(t30 * s0 == (162) * mn(p, 2, 1, 3, 1, 2, 3, 1));
    lemma_tm(p, 54, 0, 1, 3, 0, 1, 3, 1, 3, 1, 1, 0, 2, 0, 0, 0);
    assert(t30 * s1 == (162) * mn(p, 1, 2, 3, 2, 1, 3, 1));
    lemma_tm(p, 54, 0, 1, 3, 0, 1, 3, 1, -3, 1, 1, 0, 0, 0, 2, 0);
    assert(t30 * s2 == (-162) * mn(p, 1, 2, 3, 0, 1, 5, 1));
    lemma_tm(p, 54, 0, 1, 3, 0, 1, 3, 1, -6, 1, 0, 1, 0, 1, 1, 0);
    assert(t30 * s3 == (-324) * mn(p, 1, 1, 4, 0, 2, 4, 1));
    lemma_tm(p, 54, 0, 1, 3, 0, 1, 3, 1, 1, 0, 2, 0, 0, 1, 1, 0);
    assert(t30 * s4 == (54) * mn(p, 0, 3, 3, 0, 2, 4, 1));
    lemma_tm(p, 54, 0, 1, 3, 0, 1, 3, 1, -6, 0, 1, 1, 1, 0, 1, 0);
    assert(t30 * s5 == (-324) * mn(p, 0, 2, 4, 1, 1, 4, 1));
    lemma_tm(p, 54, 0, 1, 3, 0, 1, 3, 1, 1, 0, 1, 1, 0, 2, 0, 0);
    assert(t30 * s6 == (54) * mn(p, 0, 2, 4, 0, 3, 3, 1));
    lemma_tm(p, 54, 0, 1, 3, 0, 1, 3, 1, 3, 0, 1, 1, 0, 0, 2, 1);
    assert(t30 * s7 == (162) * mn(p, 0, 2, 4, 0, 1, 5, 2));
    lemma_tm(p, 54, 0, 1, 3, 0, 1, 3, 1, -3, 0, 0, 2, 1, 1, 0, 0);
    assert(t30 * s8 == (-162) * mn(p, 0, 1, 5, 1, 2, 3, 1));
    lemma_tm(p, 54, 0, 1, 3, 0, 1, 3, 1, 3, 0, 0, 2, 0, 1, 1, 1);
    assert(t30 * s9 == (162) * mn(p, 0, 1, 5, 0, 2, 4, 2));
    assert(t30 * q == (162) * mn(p, 2, 1, 3, 1, 2, 3, 1) + (162) * mn(p, 1, 2, 3, 2, 1, 3, 1) + (-162) * mn(p, 1, 2, 3, 0, 1, 5, 1) + (-324) * mn(p, 1, 1, 4, 0, 2, 4, 1) + (54) * mn(p, 0, 3, 3, 0, 2, 4, 1) + (-324) * mn(p, 0, 2, 4, 1, 1, 4, 1) + (54) * mn(p, 0, 2, 4, 0, 3, 3, 1) + (162) * mn(p, 0, 2, 4, 0, 1, 5, 2) + (-162) * mn(p, 0, 1, 5, 1, 2, 3, 1) + (162) * mn(p, 0, 1, 5, 0, 2, 4, 2));
    lemma_tm(p, 9, 0, 0, 4, 2, 2, 0, 1, 3, 2, 0, 0, 1, 1, 0, 0);
    assert(t31 * s0 == (27) * mn(p, 2, 0, 4, 3, 3, 0, 1));
    lemma_tm(p, 9, 0, 0, 4, 2, 2, 0, 1, 3, 1, 1, 0, 2, 0, 0, 0);
    assert(t31 * s1 == (27) * mn(p, 1, 1, 4, 4, 2, 0, 1));
    lemma_tm(p, 9, 0, 0, 4, 2, 2, 0, 1, -3, 1, 1, 0, 0, 0, 2, 0);
    assert(t31 * s2 == (-27) * mn(p, 1, 1, 4, 2, 2, 2, 1));
    lemma_tm(p, 9, 0, 0, 4, 2, 2, 0, 1, -6, 1, 0, 1, 0, 1, 1, 0);
    assert(t31 * s3 == (-54) * mn(p, 1, 0, 5, 2, 3, 1, 1));
    lemma_tm(p, 9, 0, 0, 4, 2, 2, 0, 1, 1, 0, 2, 0, 0, 1, 1, 0);
    assert(t31 * s4 == (9) * mn(p, 0, 2, 4, 2, 3, 1, 1));
    lemma_tm(p, 9, 0, 0, 4, 2, 2, 0, 1, -6, 0, 1, 1, 1, 0, 1, 0);
    assert(t31 * s5 == (-54) * mn(p, 0, 1, 5, 3, 2, 1, 1));
    lemma_tm(p, 9, 0, 0, 4, 2, 2, 0, 1, 1, 0, 1, 1, 0, 2, 0, 0);
    assert(t31 * s6 == (9) * mn(p, 0, 1, 5, 2, 4, 0, 1));
    lemma_tm(p, 9, 0, 0, 4, 2, 2, 0, 1, 3, 0, 1, 1, 0, 0, 2, 1);
    assert(t31 * s7 == (27) * mn(p, 0, 1, 5, 2, 2, 2, 2));
    lemma_tm(p, 9, 0, 0, 4, 2, 2, 0, 1, -3, 0, 0, 2, 1, 1, 0, 0);
    assert(t31 * s8 == (-27) * mn(p, 0, 0, 6, 3, 3, 0, 1));
    lemma_tm(p, 9, 0, 0, 4, 2, 2, 0, 1, 3, 0, 0, 2, 0, 1, 1, 1);
    assert(t31 * s9 == (27) * mn(p, 0, 0, 6, 2, 3, 1, 2));
    assert(t31 * q == (27) * mn(p, 2, 0, 4, 3, 3, 0, 1) + (27) * mn(p, 1, 1, 4, 4, 2, 0, 1) + (-27) * mn(p, 1, 1, 4, 2, 2, 2, 1) + (-54) * mn(p, 1, 0, 5, 2, 3, 1, 1) + (9) * mn(p, 0, 2, 4, 2, 3, 1, 1) + (-54) * mn(p, 0, 1, 5, 3, 2, 1, 1) + (9) * mn(p, 0, 1, 5, 2, 4, 0, 1) + (27) * mn(p, 0, 1, 5, 2, 2, 2, 2) + (-27) * mn(p, 0, 0, 6, 3, 3, 0, 1) + (27) * mn(p, 0, 0, 6, 2, 3, 1, 2));
    assert(pp31 * q == ((((((((-81) * mn(p, 3, 2, 1, 1, 1, 4, 0) + (-27) * mn(p, 3, 1, 2, 4, 2, 0, 1)) + ((-135) * mn(p, 3, 1, 2, 3, 2, 1, 0) + (9) * mn(p, 3, 1, 2, 2, 4, 0, 0))) + (((378) * mn(p, 3, 1, 2, 2, 2, 2, 1) + (-9) * mn(p, 3, 1, 2, 1, 4, 1, 1)) + ((-81) * mn(p, 3, 1, 2, 1, 2, 3, 2) + ((-243) * mn(p, 3, 1, 2, 1, 2, 3, 0) + (-54) * mn(p, 3, 0, 3, 3, 3, 0, 0))))) + ((((162) * mn(p, 3, 0, 3, 2, 3, 1, 1) + (-54) * mn(p, 3, 0, 3, 1, 3, 2, 2)) + ((-162) * mn(p, 3, 0, 3, 1, 3, 2, 0) + ((3) * mn(p, 2, 4, 0, 2, 3, 1, 0) + (-9) * mn(p, 2, 3, 1, 3, 2, 1, 0)))) + (((3) * mn(p, 2, 3, 1, 2, 4, 0, 0) + (-9) * mn(p, 2, 3, 1, 2, 2, 2, 1)) + ((-81) * mn(p, 2, 3, 1, 2, 0, 4, 0) + ((27) * mn(p, 2, 3, 1, 1, 2, 3, 0) + (81) * mn(p, 2, 3, 1, 0, 0, 6, 0)))))) + (((((-27) * mn(p, 2, 2, 2, 5, 1, 0, 1) + (-189) * mn(p, 2, 2, 2, 4, 1, 1, 0)) + ((9) * mn(p, 2, 2, 2, 3, 3, 0, 0) + ((540) * mn(p, 2, 2, 2, 3, 1, 2, 1) + (-27) * mn(p, 2, 2, 2, 2, 3, 1, 1)))) + (((-135) * mn(p, 2, 2, 2, 2, 1, 3, 2) + (-270) * mn(p, 2, 2, 2, 2, 1, 3, 0)) + ((45) * mn(p, 2, 2, 2, 1, 3, 2, 0) + ((-297) * mn(p, 2, 2, 2, 1, 1, 4, 1) + (9) * mn(p, 2, 2, 2, 0, 3, 3, 1))))) + ((((81) * mn(p, 2, 2, 2, 0, 1, 5, 2) + (405) * mn(p, 2, 2, 2, 0, 1, 5, 0)) + ((-81) * mn(p, 2, 1, 3, 4, 2, 0, 0) + ((351) * mn(p, 2, 1, 3, 3, 2, 1, 1) + (-9) * mn(p, 2, 1, 3, 2, 4, 0, 1)))) + (((-135) * mn(p, 2, 1, 3, 2, 2, 2, 2) + (-81) * mn(p, 2, 1, 3, 2, 2, 2, 0)) + ((9) * mn(p, 2, 1, 3, 1, 4, 1, 0) + ((-756) * mn(p, 2, 1, 3, 1, 2, 3, 1) + (18) * mn(p, 2, 1, 3, 0, 4, 2, 1))))))) + ((((((216) * mn(p, 2, 1, 3, 0, 2, 4, 2) + (648) * mn(p, 2, 1, 3, 0, 2, 4, 0)) + ((27) * mn(p, 2, 0, 4, 3, 3, 0, 1) + ((108) * mn(p, 2, 0, 4, 2, 3, 1, 0) + (-324) * mn(p, 2, 0, 4, 1, 3, 2, 1)))) + (((108) * mn(p, 2, 0, 4, 0, 3, 3, 2) + (324) * mn(p, 2, 0, 4, 0, 3, 3, 0)) + ((3) * mn(p, 1, 5, 0, 3, 2, 1, 0) + ((-3) * mn(p, 1, 5, 0, 1, 2, 3, 0) + (-9) * mn(p, 1, 4, 1, 4, 1, 1, 0))))) + ((((3) * mn(p, 1, 4, 1, 3, 3, 0, 0) + (-9) * mn(p, 1, 4, 1, 3, 1, 2, 1)) + ((36) * mn(p, 1, 4, 1, 2, 1, 3, 0) + ((-9) * mn(p, 1, 4, 1, 1, 3, 2, 0) + (9) * mn(p, 1, 4, 1, 1, 1, 4, 1)))) + (((-54) * mn(p, 1, 4, 1, 0, 1, 5, 0) + (-54) * mn(p, 1, 3, 2, 5, 0, 1, 0)) + ((135) * mn(p, 1, 3, 2, 4, 0, 2, 1) + ((-27) * mn(p, 1, 3, 2, 3, 2, 1, 1) + (-54) * mn(p, 1, 3, 2, 3, 0, 3, 2)))))) + (((((-108) * mn(p, 1, 3, 2, 3, 0, 3, 0) + (27) * mn(p, 1, 3, 2, 2, 2, 2, 0)) + ((-54) * mn(p, 1, 3, 2, 2, 0, 4, 1) + ((-3) * mn(p, 1, 3, 2, 1, 4, 1, 0) + (162) * mn(p, 1, 3, 2, 1, 2, 3, 1)))) + (((54) * mn(p, 1, 3, 2, 1, 0, 5, 2) + (324) * mn(p, 1, 3, 2, 1, 0, 5, 0)) + ((-3) * mn(p, 1, 3, 2, 0, 4, 2, 1) + ((-27) * mn(p, 1, 3, 2, 0, 2, 4, 2) + (-216) * mn(p, 1, 3, 2, 0, 2, 4, 0))))) + ((((-162) * mn(p, 1, 3, 2, 0, 0, 6, 1) + (-27) * mn(p, 1, 2, 3, 5, 1, 0, 0)) + ((189) * mn(p, 1, 2, 3, 4, 1, 1, 1) + ((-18) * mn(p, 1, 2, 3, 3, 3, 0, 1) + (-108) * mn(p, 1, 2, 3, 3, 1, 2, 2)))) + (((162) * mn(p, 1, 2, 3, 3, 1, 2, 0) + (-54) * mn(p, 1, 2, 3, 2, 3, 1, 0)) + ((-1134) * mn(p, 1, 2, 3, 2, 1, 3, 1) + ((3) * mn(p, 1, 2, 3, 1, 5, 0, 0) + (252) * mn(p, 1, 2, 3, 1, 3, 2, 1)))))))) + (((((((729) * mn(p, 1, 2, 3, 1, 1, 4, 2) + (1134) * mn(p, 1, 2, 3, 1, 1, 4, 0)) + ((-3) * mn(p, 1, 2, 3, 0, 5, 1, 1) + (-54) * mn(p, 1, 2, 3, 0, 3, 3, 2))) + (((-270) * mn(p, 1, 2, 3, 0, 3, 3, 0) + (-81) * mn(p, 1, 2, 3, 0, 1, 5, 3)) + ((-648) * mn(p, 1, 2, 3, 0, 1, 5, 1) + ((54) * mn(p, 1, 1, 4, 4, 2, 0, 1) + (-27) * mn(p, 1, 1, 4, 3, 2, 1, 2))))) + ((((297) * mn(p, 1, 1, 4, 3, 2, 1, 0) + (-27) * mn(p, 1, 1, 4, 2, 4, 0, 0)) + ((-1188) * mn(p, 1, 1, 4, 2, 2, 2, 1) + ((90) * mn(p, 1, 1, 4, 1, 4, 1, 1) + (891) * mn(p, 1, 1, 4, 1, 2, 3, 2)))) + (((1053) * mn(p, 1, 1, 4, 1, 2, 3, 0) + (-27) * mn(p, 1, 1, 4, 0, 4, 2, 2)) + ((-108) * mn(p, 1, 1, 4, 0, 4, 2, 0) + ((-135) * mn(p, 1, 1, 4, 0, 2, 4, 3) + (-729) * mn(p, 1, 1, 4, 0, 2, 4, 1)))))) + (((((54) * mn(p, 1, 0, 5, 3, 3, 0, 0) + (-270) * mn(p, 1, 0, 5, 2, 3, 1, 1)) + ((216) * mn(p, 1, 0, 5, 1, 3, 2, 2) + ((162) * mn(p, 1, 0, 5, 1, 3, 2, 0) + (-54) * mn(p, 1, 0, 5, 0, 3, 3, 3)))) + (((-162) * mn(p, 1, 0, 5, 0, 3, 3, 1) + (1) * mn(p, 0, 6, 0, 1, 3, 2, 0)) + ((-9) * mn(p, 0, 5, 1, 2, 2, 2, 0) + ((2) * mn(p, 0, 5, 1, 1, 4, 1, 0) + (9) * mn(p, 0, 5, 1, 0, 2, 4, 0))))) + ((((-12) * mn(p, 0, 4, 2, 2, 3, 1, 0) + (54) * mn(p, 0, 4, 2, 2, 1, 3, 1)) + ((1) * mn(p, 0, 4, 2, 1, 5, 0, 0) + ((-3) * mn(p, 0, 4, 2, 1, 3, 2, 1) + (-27) * mn(p, 0, 4, 2, 1, 1, 4, 2)))) + (((-108) * mn(p, 0, 4, 2, 1, 1, 4, 0) + (27) * mn(p, 0, 4, 2, 0, 3, 3, 0)) + ((54) * mn(p, 0, 4, 2, 0, 1, 5, 1) + ((108) * mn(p, 0, 3, 3, 4, 0, 2, 0) + (-18) * mn(p, 0, 3, 3, 3, 2, 1, 0))))))) + ((((((-324) * mn(p, 0, 3, 3, 3, 0, 3, 1) + (-3) * mn(p, 0, 3, 3, 2, 4, 0, 0)) + ((126) * mn(p, 0, 3, 3, 2, 2, 2, 1) + ((243) * mn(p, 0, 3, 3, 2, 0, 4, 2) + (324) * mn(p, 0, 3, 3, 2, 0, 4, 0)))) + (((-6) * mn(p, 0, 3, 3, 1, 4, 1, 1) + (-72) * mn(p, 0, 3, 3, 1, 2, 3, 2)) + ((-270) * mn(p, 0, 3, 3, 1, 2, 3, 0) + ((-54) * mn(p, 0, 3, 3, 1, 0, 5, 3) + (-324) * mn(p, 0, 3, 3, 1, 0, 5, 1))))) + ((((27) * mn(p, 0, 3, 3, 0, 4, 2, 0) + (162) * mn(p, 0, 3, 3, 0, 2, 4, 1)) + ((81) * mn(p, 0, 3, 3, 0, 0, 6, 2) + ((108) * mn(p, 0, 2, 4, 4, 1, 1, 0) + (-9) * mn(p, 0, 2, 4, 3, 3, 0, 0)))) + (((-486) * mn(p, 0, 2, 4, 3, 1, 2, 1) + (90) * mn(p, 0, 2, 4, 2, 3, 1, 1)) + ((486) * mn(p, 0, 2, 4, 2, 1, 3, 2) + ((648) * mn(p, 0, 2, 4, 2, 1, 3, 0) + (-3) * mn(p, 0, 2, 4, 1, 5, 0, 1)))))) + (((((-54) * mn(p, 0, 2, 4, 1, 3, 2, 2) + (-189) * mn(p, 0, 2, 4, 1, 3, 2, 0)) + ((-135) * mn(p, 0, 2, 4, 1, 1, 4, 3) + ((-810) * mn(p, 0, 2, 4, 1, 1, 4, 1) + (9) * mn(p, 0, 2, 4, 0, 5, 1, 0)))) + (((135) * mn(p, 0, 2, 4, 0, 3, 3, 1) + (243) * mn(p, 0, 2, 4, 0, 1, 5, 2)) + ((27) * mn(p, 0, 1, 5, 4, 2, 0, 0) + ((-216) * mn(p, 0, 1, 5, 3, 2, 1, 1) + (18) * mn(p, 0, 1, 5, 2, 4, 0, 1))))) + ((((243) * mn(p, 0, 1, 5, 2, 2, 2, 2) + (243) * mn(p, 0, 1, 5, 2, 2, 2, 0)) + ((-9) * mn(p, 0, 1, 5, 1, 4, 1, 2) + ((-27) * mn(p, 0, 1, 5, 1, 4, 1, 0) + (-81) * mn(p, 0, 1, 5, 1, 2, 3, 3)))) + (((-405) * mn(p, 0, 1, 5, 1, 2, 3, 1) + (27) * mn(p, 0, 1, 5, 0, 4, 2, 1)) + ((162) * mn(p, 0, 1, 5, 0, 2, 4, 2) + ((-27) * mn(p, 0, 0, 6, 3, 3, 0, 1) + (27) * mn(p, 0, 0, 6, 2, 3, 1, 2))))))))));
    assert(pp31 == ((((((-27) * mn(p, 1, 2, 1, 0, 0, 4, 0) + (-9) * mn(p, 1, 1, 2, 3, 1, 0, 1)) + ((-45) * mn(p, 1, 1, 2, 2, 1, 1, 0) + (3) * mn(p, 1, 1, 2, 1, 3, 0, 0))) + (((126) * mn(p, 1, 1, 2, 1, 1, 2, 1) + (-3) * mn(p, 1, 1, 2, 0, 3, 1, 1)) + ((-27) * mn(p, 1, 1, 2, 0, 1, 3, 2) + (-81) * mn(p, 1, 1, 2, 0, 1, 3, 0)))) + ((((-18) * mn(p, 1, 0, 3, 2, 2, 0, 0) + (54) * mn(p, 1, 0, 3, 1, 2, 1, 1)) + ((-18) * mn(p, 1, 0, 3, 0, 2, 2, 2) + (-54) * mn(p, 1, 0, 3, 0, 2, 2, 0))) + (((1) * mn(p, 0, 4, 0, 1, 2, 1, 0) + (-3) * mn(p, 0, 3, 1, 2, 1, 1, 0)) + ((1) * mn(p, 0, 3, 1, 1, 3, 0, 0) + (-3) * mn(p, 0, 3, 1, 1, 1, 2, 1))))) + (((((9) * mn(p, 0, 3, 1, 0, 1, 3, 0) + (-18) * mn(p, 0, 2, 2, 3, 0, 1, 0)) + ((45) * mn(p, 0, 2, 2, 2, 0, 2, 1) + (-6) * mn(p, 0, 2, 2, 1, 2, 1, 1))) + (((-18) * mn(p, 0, 2, 2, 1, 0, 3, 2) + (-54) * mn(p, 0, 2, 2, 1, 0, 3, 0)) + ((18) * mn(p, 0, 2, 2, 0, 2, 2, 0) + (27) * mn(p, 0, 2, 2, 0, 0, 4, 1)))) + ((((-9) * mn(p, 0, 1, 3, 3, 1, 0, 0) + (45) * mn(p, 0, 1, 3, 2, 1, 1, 1)) + ((-3) * mn(p, 0, 1, 3, 1, 3, 0, 1) + (-27) * mn(p, 0, 1, 3, 1, 1, 2, 2))) + (((-81) * mn(p, 0, 1, 3, 1, 1, 2, 0) + (9) * mn(p, 0, 1, 3, 0, 3, 1, 0)) + ((54) * mn(p, 0, 1, 3, 0, 1, 3, 1) + (9) * mn(p, 0, 0, 4, 2, 2, 0, 1)))))));
    assert(q == ((((3) * mn(p, 2, 0, 0, 1, 1, 0, 0) + (3) * mn(p, 1, 1, 0, 2, 0, 0, 0)) + ((-3) * mn(p, 1, 1, 0, 0, 0, 2, 0) + ((-6) * mn(p, 1, 0, 1, 0, 1, 1, 0) + (1) * mn(p, 0, 2, 0, 0, 1, 1, 0)))) + (((-6) * mn(p, 0, 1, 1, 1, 0, 1, 0) + (1) * mn(p, 0, 1, 1, 0, 2, 0, 0)) + ((3) * mn(p, 0, 1, 1, 0, 0, 2, 1) + ((-3) * mn(p, 0, 0, 2, 1, 1, 0, 0) + (3) * mn(p, 0, 0, 2, 0, 1, 1, 1))))));
}

#[verifier::rlimit(100)]
proof fn acb_prod12_c2(p: Pt)
    ensures
        (((-9) * mn(p, 0, 0, 4, 1, 2, 1, 2) + ((-27) * mn(p, 0, 0, 4, 1, 2, 1, 0) + (27) * mn(p, 0, 0, 4, 0, 2, 2, 1)))) * (((((3) * mn(p, 2, 0, 0, 1, 1, 0, 0) + (3) * mn(p, 1, 1, 0, 2, 0, 0, 0)) + ((-3) * mn(p, 1, 1, 0, 0, 0, 2, 0) + ((-6) * mn(p, 1, 0, 1, 0, 1, 1, 0) + (1) * mn(p, 0, 2, 0, 0, 1, 1, 0)))) + (((-6) * mn(p, 0, 1, 1, 1, 0, 1, 0) + (1) * mn(p, 0, 1, 1, 0, 2, 0, 0)) + ((3) * mn(p, 0, 1, 1, 0, 0, 2, 1) + ((-3) * mn(p, 0, 0, 2, 1, 1, 0, 0) + (3) * mn(p, 0, 0, 2, 0, 1, 1, 1)))))) == (((((-27) * mn(p, 2, 0, 4, 2, 3, 1, 2) + ((-81) * mn(p, 2, 0, 4, 2, 3, 1, 0) + (81) * mn(p, 2, 0, 4, 1, 3, 2, 1))) + (((-27) * mn(p, 1, 1, 4, 3, 2, 1, 2) + (-81) * mn(p, 1, 1, 4, 3, 2, 1, 0)) + ((81) * mn(p, 1, 1, 4, 2, 2, 2, 1) + (27) * mn(p, 1, 1, 4, 1, 2, 3, 2)))) + (((81) * mn(p, 1, 1, 4, 1, 2, 3, 0) + ((-81) * mn(p, 1, 1, 4, 0, 2, 4, 1) + (54) * mn(p, 1, 0, 5, 1, 3, 2, 2))) + (((162) * mn(p, 1, 0, 5, 1, 3, 2, 0) + (-162) * mn(p, 1, 0, 5, 0, 3, 3, 1)) + ((-9) * mn(p, 0, 2, 4, 1, 3, 2, 2) + (-27) * mn(p, 0, 2, 4, 1, 3, 2, 0))))) + ((((27) * mn(p, 0, 2, 4, 0, 3, 3, 1) + ((54) * mn(p, 0, 1, 5, 2, 2, 2, 2) + (162) * mn(p, 0, 1, 5, 2, 2, 2, 0))) + (((-9) * mn(p, 0, 1, 5, 1, 4, 1, 2) + (-27) * mn(p, 0, 1, 5, 1, 4, 1, 0)) + ((-27) * mn(p, 0, 1, 5, 1, 2, 3, 3) + (-243) * mn(p, 0, 1, 5, 1, 2, 3, 1)))) + (((27) * mn(p, 0, 1, 5, 0, 4, 2, 1) + ((81) * mn(p, 0, 1, 5, 0, 2, 4, 2) + (27) * mn(p, 0, 0, 6, 2, 3, 1, 2))) + (((81) * mn(p, 0, 0, 6, 2, 3, 1, 0) + (-27) * mn(p, 0, 0, 6, 1, 3, 2, 3)) + ((-162) * mn(p, 0, 0, 6, 1, 3, 2, 1) + (81) * mn(p, 0, 0, 6, 0, 3, 3, 2)))))),
{
    let t0 = (-9) * mn(p, 0, 0, 4, 1, 2, 1, 2);
    let t1 = (-27) * mn(p, 0, 0, 4, 1, 2, 1, 0);
    let t2 = (27) * mn(p, 0, 0, 4, 0, 2, 2, 1);
    let s0 = (3) * mn(p, 2, 0, 0, 1, 1, 0, 0);
    let s1 = (3) * mn(p, 1, 1, 0, 2, 0, 0, 0);
    let s2 = (-3) * mn(p, 1, 1, 0, 0, 0, 2, 0);
    let s3 = (-6) * mn(p, 1, 0, 1, 0, 1, 1, 0);
    let s4 = (1) * mn(p, 0, 2, 0, 0, 1, 1, 0);
    let s5 = (-6) * mn(p, 0, 1, 1, 1, 0, 1, 0);
    let s6 = (1) * mn(p, 0, 1, 1, 0, 2, 0, 0);
    let s7 = (3) * mn(p, 0, 1, 1, 0, 0, 2, 1);
    let s8 = (-3) * mn(p, 0, 0, 2, 1, 1, 0, 0);
    let s9 = (3) * mn(p, 0, 0, 2, 0, 1, 1, 1);
    let pp0 = t0;
    let pp1 = pp0 + t1;
    let pp2 = pp1 + t2;
    let qq0 = s0;
    let qq1 = qq0 + s1;
    let qq2 = qq1 + s2;
    let qq3 = qq2 + s3;
    let qq4 = qq3 + s4;
    let qq5 = qq4 + s5;
    let qq6 = qq5 + s6;
    let qq7 = qq6 + s7;
    let qq8 = qq7 + s8;
    let qq9 = qq8 + s9;
    let q = qq9;
    lemma_mul_is_distributive_add_other_way(q, pp0, t1);
    lemma_mul_is_distributive_add_other_way(q, pp1, t2);
    lemma_mul_is_distributive_add(t0, qq0, s1);
    lemma_mul_is_distributive_add(t0, qq1, s2);
    lemma_mul_is_distributive_add(t0, qq2, s3);
    lemma_mul_is_distributive_add(t0, qq3, s4);
    lemma_mul_is_distributive_add(t0, qq4, s5);
    lemma_mul_is_distributive_add(t0, qq5, s6);
    lemma_mul_is_distributive_add(t0, qq6, s7);
    lemma_mul_is_distributive_add(t0, qq7, s8);
    lemma_mul_is_distributive_add(t0, qq8, s9);
    lemma_mul_is_distributive_add(t1, qq0, s1);
    lemma_mul_is_distributive_add(t1, qq1, s2);
    lemma_mul_is_distributive_add(t1, qq2, s3);
    lemma_mul_is_distributive_add(t1, qq3, s4);
    lemma_mul_is_distributive_add(t1, qq4, s5);
    lemma_mul_is_distributive_add(t1, qq5, s6);
    lemma_mul_is_distributive_add(t1, qq6, s7);
    lemma_mul_is_distributive_add(t1, qq7, s8);
    lemma_mul_is_distributive_add(t1, qq8, s9);
    lemma_mul_is_distributive_add(t2, qq0, s1);
    lemma_mul_is_distributive_add(t2, qq1, s2);
    lemma_mul_is_distributive_add(t2, qq2, s3);
    lemma_mul_is_distributive_add(t2, qq3, s4);
    lemma_mul_is_distributive_add(t2, qq4, s5);
    lemma_mul_is_distributive_add(t2, qq5, s6);
    lemma_mul_is_distributive_add(t2, qq6, s7);
    lemma_mul_is_distributive_add(t2, qq7, s8);
    lemma_mul_is_distributive_add(t2, qq8, s9);
    lemma_tm(p, -9, 0, 0, 4, 1, 2, 1, 2, 3, 2, 0, 0, 1, 1, 0, 0);
    assert(t0 * s0 == (-27) * mn(p, 2, 0, 4, 2, 3, 1, 2));
    lemma_tm(p, -9, 0, 0, 4, 1, 2, 1, 2, 3, 1, 1, 0, 2, 0, 0, 0);
    assert(t0 * s1 == (-27) * mn(p, 1, 1, 4, 3, 2, 1, 2));
    lemma_tm(p, -9, 0, 0, 4, 1, 2, 1, 2, -3, 1, 1, 0, 0, 0, 2, 0);
    assert(t0 * s2 == (27) * mn(p, 1, 1, 4, 1, 2, 3, 2));
    lemma_tm(p, -9, 0, 0, 4, 1, 2, 1, 2, -6, 1, 0, 1, 0, 1, 1, 0);
    assert(t0 * s3 == (54) * mn(p, 1, 0, 5, 1, 3, 2, 2));
    lemma_tm(p, -9, 0, 0, 4, 1, 2, 1, 2, 1, 0, 2, 0, 0, 1, 1, 0);
    assert(t0 * s4 == (-9) * mn(p, 0, 2, 4, 1, 3, 2, 2));
    lemma_tm(p, -9, 0, 0, 4, 1, 2, 1, 2, -6, 0, 1, 1, 1, 0, 1, 0);
    assert(t0 * s5 == (54) * mn(p, 0, 1, 5, 2, 2, 2, 2));
    lemma_tm(p, -9, 0, 0, 4, 1, 2, 1, 2, 1, 0, 1, 1, 0, 2, 0, 0);
    assert(t0 * s6 == (-9) * mn(p, 0, 1, 5, 1, 4, 1, 2));
    lemma_tm(p, -9, 0, 0, 4, 1, 2, 1, 2, 3, 0, 1, 1, 0, 0, 2, 1);
    assert(t0 * s7 == (-27) * mn(p, 0, 1, 5, 1, 2, 3, 3));
    lemma_tm(p, -9, 0, 0, 4, 1, 2, 1, 2, -3, 0, 0, 2, 1, 1, 0, 0);
    assert(t0 * s8 == (27) * mn(p, 0, 0, 6, 2, 3, 1, 2));
    lemma_tm(p, -9, 0, 0, 4, 1, 2, 1, 2, 3, 0, 0, 2, 0, 1, 1, 1);
    assert(t0 * s9 == (-27) * mn(p, 0, 0, 6, 1, 3, 2, 3));
    assert(t0 * q == (-27) * mn(p, 2, 0, 4, 2, 3, 1, 2) + (-27) * mn(p, 1, 1, 4, 3, 2, 1, 2) + (27) * mn(p, 1, 1, 4, 1, 2, 3, 2) + (54) * mn(p, 1, 0, 5, 1, 3, 2, 2) + (-9) * mn(p, 0, 2, 4, 1, 3, 2, 2) + (54) * mn(p, 0, 1, 5, 2, 2, 2, 2) + (-9) * mn(p, 0, 1, 5, 1, 4, 1, 2) + (-27) * mn(p, 0, 1, 5, 1, 2, 3, 3) + (27) * mn(p, 0, 0, 6, 2, 3, 1, 2) + (-27) * mn(p, 0, 0, 6, 1, 3, 2, 3));
    lemma_tm(p, -27, 0, 0, 4, 1, 2, 1, 0, 3, 2, 0, 0, 1, 1, 0, 0);
    assert(t1 * s0 == (-81) * mn(p, 2, 0, 4, 2, 3, 1, 0));
    lemma_tm(p, -27, 0, 0, 4, 1, 2, 1, 0, 3, 1, 1, 0, 2, 0, 0, 0);
    assert(t1 * s1 == (-81) * mn(p, 1, 1, 4, 3, 2, 1, 0));
    lemma_tm(p, -27, 0, 0, 4, 1, 2, 1, 0, -3, 1, 1, 0, 0, 0, 2, 0);
    assert(t1 * s2 == (81) * mn(p, 1, 1, 4, 1, 2, 3, 0));
    lemma_tm(p, -27, 0, 0, 4, 1, 2, 1, 0, -6, 1, 0, 1, 0, 1, 1, 0);
    assert(t1 * s3 == (162) * mn(p, 1, 0, 5, 1, 3, 2, 0));
    lemma_tm(p, -27, 0, 0, 4, 1, 2, 1, 0, 1, 0, 2, 0, 0, 1, 1, 0);
    assert(t1 * s4 == (-27) * mn(p, 0, 2, 4, 1, 3, 2, 0));
    lemma_tm(p, -27, 0, 0, 4, 1, 2, 1, 0, -6, 0, 1, 1, 1, 0, 1, 0);
    assert(t1 * s5 == (162) * mn(p, 0, 1, 5, 2, 2, 2, 0));
    lemma_tm(p, -27, 0, 0, 4, 1, 2, 1, 0, 1, 0, 1, 1, 0, 2, 0, 0);
    assert(t1 * s6 == (-27) * mn(p, 0, 1, 5, 1, 4, 1, 0));
    lemma_tm(p, -27, 0, 0, 4, 1, 2, 1, 0, 3, 0, 1, 1, 0, 0, 2, 1);
    assert(t1 * s7 == (-81) * mn(p, 0, 1, 5, 1, 2, 3, 1));
    lemma_tm(p, -27, 0, 0, 4, 1, 2, 1, 0, -3, 0, 0, 2, 1, 1, 0, 0);
    assert(t1 * s8 == (81) * mn(p, 0, 0, 6, 2, 3, 1, 0));
    lemma_tm(p, -27, 0, 0, 4, 1, 2, 1, 0, 3, 0, 0, 2, 0, 1, 1, 1);
    assert(t1 * s9 == (-81) * mn(p, 0, 0, 6, 1, 3, 2, 1));
    assert(t1 * q == (-81) * mn(p, 2, 0, 4, 2, 3, 1, 0) + (-81) * mn(p, 1, 1, 4, 3, 2, 1, 0) + (81) * mn(p, 1, 1, 4, 1, 2, 3, 0) + (162) * mn(p, 1, 0, 5, 1, 3, 2, 0) + (-27) * mn(p, 0, 2, 4, 1, 3, 2, 0) + (162) * mn(p, 0, 1, 5, 2, 2, 2, 0) + (-27) * mn(p, 0, 1, 5, 1, 4, 1, 0) + (-81) * mn(p, 0, 1, 5, 1, 2, 3, 1) + (81) * mn(p, 0, 0, 6, 2, 3, 1, 0) + (-81) * mn(p, 0, 0, 6, 1, 3, 2, 1));
    lemma_tm(p, 27, 0, 0, 4, 0, 2, 2, 1, 3, 2, 0, 0, 1, 1, 0, 0);
    assert(t2 * s0 == (81) * mn(p, 2, 0, 4, 1, 3, 2, 1));
    lemma_tm(p, 27, 0, 0, 4, 0, 2, 2, 1, 3, 1, 1, 0, 2, 0, 0, 0);
    assert(t2 * s1 == (81) * mn(p, 1, 1, 4, 2, 2, 2, 1));
    lemma_tm(p, 27, 0, 0, 4, 0, 2, 2, 1, -3, 1, 1, 0, 0, 0, 2, 0);
    assert(t2 * s2 == (-81) * mn(p, 1, 1, 4, 0, 2, 4, 1));
    lemma_tm(p, 27, 0, 0, 4, 0, 2, 2, 1, -6, 1, 0, 1, 0, 1, 1, 0);
    assert(t2 * s3 == (-162) * mn(p, 1, 0, 5, 0, 3, 3, 1));
    lemma_tm(p, 27, 0, 0, 4, 0, 2, 2, 1, 1, 0, 2, 0, 0, 1, 1, 0);
    assert(t2 * s4 == (27) * mn(p, 0, 2, 4, 0, 3, 3, 1));
    lemma_tm(p, 27, 0, 0, 4, 0, 2, 2, 1, -6, 0, 1, 1, 1, 0, 1, 0);
    assert(t2 * s5 == (-162) * mn(p, 0, 1, 5, 1, 2, 3, 1));
    lemma_tm(p, 27, 0, 0, 4, 0, 2, 2, 1, 1, 0, 1, 1, 0, 2, 0, 0);
    assert(t2 * s6 == (27) * mn(p, 0, 1, 5, 0, 4, 2, 1));
    lemma_tm(p, 27, 0, 0, 4, 0, 2, 2, 1, 3, 0, 1, 1, 0, 0, 2, 1);
    assert(t2 * s7 == (81) * mn(p, 0, 1, 5, 0, 2, 4, 2));
    lemma_tm(p, 27, 0, 0, 4, 0, 2, 2, 1, -3, 0, 0, 2, 1, 1, 0, 0);
    assert(t2 * s8 == (-81) * mn(p, 0, 0, 6, 1, 3, 2, 1));
    lemma_tm(p, 27, 0, 0, 4, 0, 2, 2, 1, 3, 0, 0, 2, 0, 1, 1, 1);
    assert(t2 * s9 == (81) * mn(p, 0, 0, 6, 0, 3, 3, 2));
    assert(t2 * q == (81) * mn(p, 2, 0, 4, 1, 3, 2, 1) + (81) * mn(p, 1, 1, 4, 2, 2, 2, 1) + (-81) * mn(p, 1, 1, 4, 0, 2, 4, 1) + (-162) * mn(p, 1, 0, 5, 0, 3, 3, 1) + (27) * mn(p, 0, 2, 4, 0, 3, 3, 1) + (-162) * mn(p, 0, 1, 5, 1, 2, 3, 1) + (27) * mn(p, 0, 1, 5, 0, 4, 2, 1) + (81) * mn(p, 0, 1, 5, 0, 2, 4, 2) + (-81) * mn(p, 0, 0, 6, 1, 3, 2, 1) + (81) * mn(p, 0, 0, 6, 0, 3, 3, 2));
    assert(pp2 * q == (((((-27) * mn(p, 2, 0, 4, 2, 3, 1, 2) + ((-81) * mn(p, 2, 0, 4, 2, 3, 1, 0) + (81) * mn(p, 2, 0, 4, 1, 3, 2, 1))) + (((-27) * mn(p, 1, 1, 4, 3, 2, 1, 2) + (-81) * mn(p, 1, 1, 4, 3, 2, 1, 0)) + ((81) * mn(p, 1, 1, 4, 2, 2, 2, 1) + (27) * mn(p, 1, 1, 4, 1, 2, 3, 2)))) + (((81) * mn(p, 1, 1, 4, 1, 2, 3, 0) + ((-81) * mn(p, 1, 1, 4, 0, 2, 4, 1) + (54) * mn(p, 1, 0, 5, 1, 3, 2, 2))) + (((162) * mn(p, 1, 0, 5, 1, 3, 2, 0) + (-162) * mn(p, 1, 0, 5, 0, 3, 3, 1)) + ((-9) * mn(p, 0, 2, 4, 1, 3, 2, 2) + (-27) * mn(p, 0, 2, 4, 1, 3, 2, 0))))) + ((((27) * mn(p, 0, 2, 4, 0, 3, 3, 1) + ((54) * mn(p, 0, 1, 5, 2, 2, 2, 2) + (162) * mn(p, 0, 1, 5, 2, 2, 2, 0))) + (((-9) * mn(p, 0, 1, 5, 1, 4, 1, 2) + (-27) * mn(p, 0, 1, 5, 1, 4, 1, 0)) + ((-27) * mn(p, 0, 1, 5, 1, 2, 3, 3) + (-243) * mn(p, 0, 1, 5, 1, 2, 3, 1)))) + (((27) * mn(p, 0, 1, 5, 0, 4, 2, 1) + ((81) * mn(p, 0, 1, 5, 0, 2, 4, 2) + (27) * mn(p, 0, 0, 6, 2, 3, 1, 2))) + (((81) * mn(p, 0, 0, 6, 2, 3, 1, 0) + (-27) * mn(p, 0, 0, 6, 1, 3, 2, 3)) + ((-162) * mn(p, 0, 0, 6, 1, 3, 2, 1) + (81) * mn(p, 0, 0, 6, 0, 3, 3, 2)))))));
    assert(pp2 == ((-9) * mn(p, 0, 0, 4, 1, 2, 1, 2) + ((-27) * mn(p, 0, 0, 4, 1, 2, 1, 0) + (27) * mn(p, 0, 0, 4, 0, 2, 2, 1))));
    assert(q == ((((3) * mn(p, 2, 0, 0, 1, 1, 0, 0) + (3) * mn(p, 1, 1, 0, 2, 0, 0, 0)) + ((-3) * mn(p, 1, 1, 0, 0, 0, 2, 0) + ((-6) * mn(p, 1, 0, 1, 0, 1, 1, 0) + (1) * mn(p, 0, 2, 0, 0, 1, 1, 0)))) + (((-6) * mn(p, 0, 1, 1, 1, 0, 1, 0) + (1) * mn(p, 0, 1, 1, 0, 2, 0, 0)) + ((3) * mn(p, 0, 1, 1, 0, 0, 2, 1) + ((-3) * mn(p, 0, 0, 2, 1, 1, 0, 0) + (3) * mn(p, 0, 0, 2, 0, 1, 1, 1))))));
}

#[verifier::rlimit(100)]
proof fn acb_prod16(p: Pt)
    ensures
        (((((3) * mn(p, 2, 0, 0, 1, 1, 0, 0) + (3) * mn(p, 1, 1, 0, 2, 0, 0, 0)) + ((-3) * mn(p, 1, 1, 0, 0, 0, 2, 0) + ((-6) * mn(p, 1, 0, 1, 0, 1, 1, 0) + (1) * mn(p, 0, 2, 0, 0, 1, 1, 0)))) + (((-6) * mn(p, 0, 1, 1, 1, 0, 1, 0) + (1) * mn(p, 0, 1, 1, 0, 2, 0, 0)) + ((3) * mn(p, 0, 1, 1, 0, 0, 2, 1) + ((-3) * mn(p, 0, 0, 2, 1, 1, 0, 0) + (3) * mn(p, 0, 0, 2, 0, 1, 1, 1)))))) * (((((3) * mn(p, 2, 0, 0, 1, 1, 0, 0) + (3) * mn(p, 1, 1, 0, 2, 0, 0, 0)) + ((-3) * mn(p, 1, 1, 0, 0, 0, 2, 0) + ((-6) * mn(p, 1, 0, 1, 0, 1, 1, 0) + (1) * mn(p, 0, 2, 0, 0, 1, 1, 0)))) + (((-6) * mn(p, 0, 1, 1, 1, 0, 1, 0) + (1) * mn(p, 0, 1, 1, 0, 2, 0, 0)) + ((3) * mn(p, 0, 1, 1, 0, 0, 2, 1) + ((-3) * mn(p, 0, 0, 2, 1, 1, 0, 0) + (3) * mn(p, 0, 0, 2, 0, 1, 1, 1)))))) == ((((((9) * mn(p, 4, 0, 0, 2, 2, 0, 0) + ((18) * mn(p, 3, 1, 0, 3, 1, 0, 0) + (-18) * mn(p, 3, 1, 0, 1, 1, 2, 0))) + ((-36) * mn(p, 3, 0, 1, 1, 2, 1, 0) + ((9) * mn(p, 2, 2, 0, 4, 0, 0, 0) + (-18) * mn(p, 2, 2, 0, 2, 0, 2, 0)))) + (((6) * mn(p, 2, 2, 0, 1, 2, 1, 0) + ((9) * mn(p, 2, 2, 0, 0, 0, 4, 0) + (-72) * mn(p, 2, 1, 1, 2, 1, 1, 0))) + ((6) * mn(p, 2, 1, 1, 1, 3, 0, 0) + ((18) * mn(p, 2, 1, 1, 1, 1, 2, 1) + (36) * mn(p, 2, 1, 1, 0, 1, 3, 0))))) + ((((-18) * mn(p, 2, 0, 2, 2, 2, 0, 0) + ((18) * mn(p, 2, 0, 2, 1, 2, 1, 1) + (36) * mn(p, 2, 0, 2, 0, 2, 2, 0))) + ((6) * mn(p, 1, 3, 0, 2, 1, 1, 0) + ((-6) * mn(p, 1, 3, 0, 0, 1, 3, 0) + (-36) * mn(p, 1, 2, 1, 3, 0, 1, 0)))) + (((6) * mn(p, 1, 2, 1, 2, 2, 0, 0) + ((18) * mn(p, 1, 2, 1, 2, 0, 2, 1) + (36) * mn(p, 1, 2, 1, 1, 0, 3, 0))) + ((-18) * mn(p, 1, 2, 1, 0, 2, 2, 0) + ((-18) * mn(p, 1, 2, 1, 0, 0, 4, 1) + (-18) * mn(p, 1, 1, 2, 3, 1, 0, 0)))))) + (((((18) * mn(p, 1, 1, 2, 2, 1, 1, 1) + ((90) * mn(p, 1, 1, 2, 1, 1, 2, 0) + (-12) * mn(p, 1, 1, 2, 0, 3, 1, 0))) + ((-54) * mn(p, 1, 1, 2, 0, 1, 3, 1) + ((36) * mn(p, 1, 0, 3, 1, 2, 1, 0) + (-36) * mn(p, 1, 0, 3, 0, 2, 2, 1)))) + (((1) * mn(p, 0, 4, 0, 0, 2, 2, 0) + ((-12) * mn(p, 0, 3, 1, 1, 1, 2, 0) + (2) * mn(p, 0, 3, 1, 0, 3, 1, 0))) + ((6) * mn(p, 0, 3, 1, 0, 1, 3, 1) + ((36) * mn(p, 0, 2, 2, 2, 0, 2, 0) + (-18) * mn(p, 0, 2, 2, 1, 2, 1, 0))))) + ((((-36) * mn(p, 0, 2, 2, 1, 0, 3, 1) + ((1) * mn(p, 0, 2, 2, 0, 4, 0, 0) + (12) * mn(p, 0, 2, 2, 0, 2, 2, 1))) + ((9) * mn(p, 0, 2, 2, 0, 0, 4, 2) + ((36) * mn(p, 0, 1, 3, 2, 1, 1, 0) + (-6) * mn(p, 0, 1, 3, 1, 3, 0, 0)))) + (((-54) * mn(p, 0, 1, 3, 1, 1, 2, 1) + ((6) * mn(p, 0, 1, 3, 0, 3, 1, 1) + (18) * mn(p, 0, 1, 3, 0, 1, 3, 2))) + ((9) * mn(p, 0, 0, 4, 2, 2, 0, 0) + ((-18) * mn(p, 0, 0, 4, 1, 2, 1, 1) + (9) * mn(p, 0, 0, 4, 0, 2, 2, 2))))))),
{
    let c0 = ((((3) * mn(p, 2, 0, 0, 1, 1, 0, 0) + (3) * mn(p, 1, 1, 0, 2, 0, 0, 0)) + ((-3) * mn(p, 1, 1, 0, 0, 0, 2, 0) + ((-6) * mn(p, 1, 0, 1, 0, 1, 1, 0) + (1) * mn(p, 0, 2, 0, 0, 1, 1, 0)))) + (((-6) * mn(p, 0, 1, 1, 1, 0, 1, 0) + (1) * mn(p, 0, 1, 1, 0, 2, 0, 0)) + ((3) * mn(p, 0, 1, 1, 0, 0, 2, 1) + ((-3) * mn(p, 0, 0, 2, 1, 1, 0, 0) + (3) * mn(p, 0, 0, 2, 0, 1, 1, 1)))));
    let cc0 = c0;
    assert(cc0 == ((((3) * mn(p, 2, 0, 0, 1, 1, 0, 0) + (3) * mn(p, 1, 1, 0, 2, 0, 0, 0)) + ((-3) * mn(p, 1, 1, 0, 0, 0, 2, 0) + ((-6) * mn(p, 1, 0, 1, 0, 1, 1, 0) + (1) * mn(p, 0, 2, 0, 0, 1, 1, 0)))) + (((-6) * mn(p, 0, 1, 1, 1, 0, 1, 0) + (1) * mn(p, 0, 1, 1, 0, 2, 0, 0)) + ((3) * mn(p, 0, 1, 1, 0, 0, 2, 1) + ((-3) * mn(p, 0, 0, 2, 1, 1, 0, 0) + (3) * mn(p, 0, 0, 2, 0, 1, 1, 1))))));
    let q = ((((3) * mn(p, 2, 0, 0, 1, 1, 0, 0) + (3) * mn(p, 1, 1, 0, 2, 0, 0, 0)) + ((-3) * mn(p, 1, 1, 0, 0, 0, 2, 0) + ((-6) * mn(p, 1, 0, 1, 0, 1, 1, 0) + (1) * mn(p, 0, 2, 0, 0, 1, 1, 0)))) + (((-6) * mn(p, 0, 1, 1, 1, 0, 1, 0) + (1) * mn(p, 0, 1, 1, 0, 2, 0, 0)) + ((3) * mn(p, 0, 1, 1, 0, 0, 2, 1) + ((-3) * mn(p, 0, 0, 2, 1, 1, 0, 0) + (3) * mn(p, 0, 0, 2, 0, 1, 1, 1)))));
    acb_prod16_c0(p);
    assert(c0 * q == ((((((9) * mn(p, 4, 0, 0, 2, 2, 0, 0) + ((18) * mn(p, 3, 1, 0, 3, 1, 0, 0) + (-18) * mn(p, 3, 1, 0, 1, 1, 2, 0))) + ((-36) * mn(p, 3, 0, 1, 1, 2, 1, 0) + ((9) * mn(p, 2, 2, 0, 4, 0, 0, 0) + (-18) * mn(p, 2, 2, 0, 2, 0, 2, 0)))) + (((6) * mn(p, 2, 2, 0, 1, 2, 1, 0) + ((9) * mn(p, 2, 2, 0, 0, 0, 4, 0) + (-72) * mn(p, 2, 1, 1, 2, 1, 1, 0))) + ((6) * mn(p, 2, 1, 1, 1, 3, 0, 0) + ((18) * mn(p, 2, 1, 1, 1, 1, 2, 1) + (36) * mn(p, 2, 1, 1, 0, 1, 3, 0))))) + ((((-18) * mn(p, 2, 0, 2, 2, 2, 0, 0) + ((18) * mn(p, 2, 0, 2, 1, 2, 1, 1) + (36) * mn(p, 2, 0, 2, 0, 2, 2, 0))) + ((6) * mn(p, 1, 3, 0, 2, 1, 1, 0) + ((-6) * mn(p, 1, 3, 0, 0, 1, 3, 0) + (-36) * mn(p, 1, 2, 1, 3, 0, 1, 0)))) + (((6) * mn(p, 1, 2, 1, 2, 2, 0, 0) + ((18) * mn(p, 1, 2, 1, 2, 0, 2, 1) + (36) * mn(p, 1, 2, 1, 1, 0, 3, 0))) + ((-18) * mn(p, 1, 2, 1, 0, 2, 2, 0) + ((-18) * mn(p, 1, 2, 1, 0, 0, 4, 1) + (-18) * mn(p, 1, 1, 2, 3, 1, 0, 0)))))) + (((((18) * mn(p, 1, 1, 2, 2, 1, 1, 1) + ((90) * mn(p, 1, 1, 2, 1, 1, 2, 0) + (-12) * mn(p, 1, 1, 2, 0, 3, 1, 0))) + ((-54) * mn(p, 1, 1, 2, 0, 1, 3, 1) + ((36) * mn(p, 1, 0, 3, 1, 2, 1, 0) + (-36) * mn(p, 1, 0, 3, 0, 2, 2, 1)))) + (((1) * mn(p, 0, 4, 0, 0, 2, 2, 0) + ((-12) * mn(p, 0, 3, 1, 1, 1, 2, 0) + (2) * mn(p, 0, 3, 1, 0, 3, 1, 0))) + ((6) * mn(p, 0, 3, 1, 0, 1, 3, 1) + ((36) * mn(p, 0, 2, 2, 2, 0, 2, 0) + (-18) * mn(p, 0, 2, 2, 1, 2, 1, 0))))) + ((((-36) * mn(p, 0, 2, 2, 1, 0, 3, 1) + ((1) * mn(p, 0, 2, 2, 0, 4, 0, 0) + (12) * mn(p, 0, 2, 2, 0, 2, 2, 1))) + ((9) * mn(p, 0, 2, 2, 0, 0, 4, 2) + ((36) * mn(p, 0, 1, 3, 2, 1, 1, 0) + (-6) * mn(p, 0, 1, 3, 1, 3, 0, 0)))) + (((-54) * mn(p, 0, 1, 3, 1, 1, 2, 1) + ((6) * mn(p, 0, 1, 3, 0, 3, 1, 1) + (18) * mn(p, 0, 1, 3, 0, 1, 3, 2))) + ((9) * mn(p, 0, 0, 4, 2, 2, 0, 0) + ((-18) * mn(p, 0, 0, 4, 1, 2, 1, 1) + (9) * mn(p, 0, 0, 4, 0, 2, 2, 2))))))));
    assert(cc0 * q == ((((((9) * mn(p, 4, 0, 0, 2, 2, 0, 0) + ((18) * mn(p, 3, 1, 0, 3, 1, 0, 0) + (-18) * mn(p, 3, 1, 0, 1, 1, 2, 0))) + ((-36) * mn(p, 3, 0, 1, 1, 2, 1, 0) + ((9) * mn(p, 2, 2, 0, 4, 0, 0, 0) + (-18) * mn(p, 2, 2, 0, 2, 0, 2, 0)))) + (((6) * mn(p, 2, 2, 0, 1, 2, 1, 0) + ((9) * mn(p, 2, 2, 0, 0, 0, 4, 0) + (-72) * mn(p, 2, 1, 1, 2, 1, 1, 0))) + ((6) * mn(p, 2, 1, 1, 1, 3, 0, 0) + ((18) * mn(p, 2, 1, 1, 1, 1, 2, 1) + (36) * mn(p, 2, 1, 1, 0, 1, 3, 0))))) + ((((-18) * mn(p, 2, 0, 2, 2, 2, 0, 0) + ((18) * mn(p, 2, 0, 2, 1, 2, 1, 1) + (36) * mn(p, 2, 0, 2, 0, 2, 2, 0))) + ((6) * mn(p, 1, 3, 0, 2, 1, 1, 0) + ((-6) * mn(p, 1, 3, 0, 0, 1, 3, 0) + (-36) * mn(p, 1, 2, 1, 3, 0, 1, 0)))) + (((6) * mn(p, 1, 2, 1, 2, 2, 0, 0) + ((18) * mn(p, 1, 2, 1, 2, 0, 2, 1) + (36) * mn(p, 1, 2, 1, 1, 0, 3, 0))) + ((-18) * mn(p, 1, 2, 1, 0, 2, 2, 0) + ((-18) * mn(p, 1, 2, 1, 0, 0, 4, 1) + (-18) * mn(p, 1, 1, 2, 3, 1, 0, 0)))))) + (((((18) * mn(p, 1, 1, 2, 2, 1, 1, 1) + ((90) * mn(p, 1, 1, 2, 1, 1, 2, 0) + (-12) * mn(p, 1, 1, 2, 0, 3, 1, 0))) + ((-54) * mn(p, 1, 1, 2, 0, 1, 3, 1) + ((36) * mn(p, 1, 0, 3, 1, 2, 1, 0) + (-36) * mn(p, 1, 0, 3, 0, 2, 2, 1)))) + (((1) * mn(p, 0, 4, 0, 0, 2, 2, 0) + ((-12) * mn(p, 0, 3, 1, 1, 1, 2, 0) + (2) * mn(p, 0, 3, 1, 0, 3, 1, 0))) + ((6) * mn(p, 0, 3, 1, 0, 1, 3, 1) + ((36) * mn(p, 0, 2, 2, 2, 0, 2, 0) + (-18) * mn(p, 0, 2, 2, 1, 2, 1, 0))))) + ((((-36) * mn(p, 0, 2, 2, 1, 0, 3, 1) + ((1) * mn(p, 0, 2, 2, 0, 4, 0, 0) + (12) * mn(p, 0, 2, 2, 0, 2, 2, 1))) + ((9) * mn(p, 0, 2, 2, 0, 0, 4, 2) + ((36) * mn(p, 0, 1, 3, 2, 1, 1, 0) + (-6) * mn(p, 0, 1, 3, 1, 3, 0, 0)))) + (((-54) * mn(p, 0, 1, 3, 1, 1, 2, 1) + ((6) * mn(p, 0, 1, 3, 0, 3, 1, 1) + (18) * mn(p, 0, 1, 3, 0, 1, 3, 2))) + ((9) * mn(p, 0, 0, 4, 2, 2, 0, 0) + ((-18) * mn(p, 0, 0, 4, 1, 2, 1, 1) + (9) * mn(p, 0, 0, 4, 0, 2, 2, 2))))))));
}

#[verifier::rlimit(100)]
proof fn acb_prod16_c0(p: Pt)
    ensures
        (((((3) * mn(p, 2, 0, 0, 1, 1, 0, 0) + (3) * mn(p, 1, 1, 0, 2, 0, 0, 0)) + ((-3) * mn(p, 1, 1, 0, 0, 0, 2, 0) + ((-6) * mn(p, 1, 0, 1, 0, 1, 1, 0) + (1) * mn(p, 0, 2, 0, 0, 1, 1, 0)))) + (((-6) * mn(p, 0, 1, 1, 1, 0, 1, 0) + (1) * mn(p, 0, 1, 1, 0, 2, 0, 0)) + ((3) * mn(p, 0, 1, 1, 0, 0, 2, 1) + ((-3) * mn(p, 0, 0, 2, 1, 1, 0, 0) + (3) * mn(p, 0, 0, 2, 0, 1, 1, 1)))))) * (((((3) * mn(p, 2, 0, 0, 1, 1, 0, 0) + (3) * mn(p, 1, 1, 0, 2, 0, 0, 0)) + ((-3) * mn(p, 1, 1, 0, 0, 0, 2, 0) + ((-6) * mn(p, 1, 0, 1, 0, 1, 1, 0) + (1) * mn(p, 0, 2, 0, 0, 1, 1, 0)))) + (((-6) * mn(p, 0, 1, 1, 1, 0, 1, 0) + (1) * mn(p, 0, 1, 1, 0, 2, 0, 0)) + ((3) * mn(p, 0, 1, 1, 0, 0, 2, 1) + ((-3) * mn(p, 0, 0, 2, 1, 1, 0, 0) + (3) * mn(p, 0, 0, 2, 0, 1, 1, 1)))))) == ((((((9) * mn(p, 4, 0, 0, 2, 2, 0, 0) + ((18) * mn(p, 3, 1, 0, 3, 1, 0, 0) + (-18) * mn(p, 3, 1, 0, 1, 1, 2, 0))) + ((-36) * mn(p, 3, 0, 1, 1, 2, 1, 0) + ((9) * mn(p, 2, 2, 0, 4, 0, 0, 0) + (-18) * mn(p, 2, 2, 0, 2, 0, 2, 0)))) + (((6) * mn(p, 2, 2, 0, 1, 2, 1, 0) + ((9) * mn(p, 2, 2, 0, 0, 0, 4, 0) + (-72) * mn(p, 2, 1, 1, 2, 1, 1, 0))) + ((6) * mn(p, 2, 1, 1, 1, 3, 0, 0) + ((18) * mn(p, 2, 1, 1, 1, 1, 2, 1) + (36) * mn(p, 2, 1, 1, 0, 1, 3, 0))))) + ((((-18) * mn(p, 2, 0, 2, 2, 2, 0, 0) + ((18) * mn(p, 2, 0, 2, 1, 2, 1, 1) + (36) * mn(p, 2, 0, 2, 0, 2, 2, 0))) + ((6) * mn(p, 1, 3, 0, 2, 1, 1, 0) + ((-6) * mn(p, 1, 3, 0, 0, 1, 3, 0) + (-36) * mn(p, 1, 2, 1, 3, 0, 1, 0)))) + (((6) * mn(p, 1, 2, 1, 2, 2, 0, 0) + ((18) * mn(p, 1, 2, 1, 2, 0, 2, 1) + (36) * mn(p, 1, 2, 1, 1, 0, 3, 0))) + ((-18) * mn(p, 1, 2, 1, 0, 2, 2, 0) + ((-18) * mn(p, 1, 2, 1, 0, 0, 4, 1) + (-18) * mn(p, 1, 1, 2, 3, 1, 0, 0)))))) + (((((18) * mn(p, 1, 1, 2, 2, 1, 1, 1) + ((90) * mn(p, 1, 1, 2, 1, 1, 2, 0) + (-12) * mn(p, 1, 1, 2, 0, 3, 1, 0))) + ((-54) * mn(p, 1, 1, 2, 0, 1, 3, 1) + ((36) * mn(p, 1, 0, 3, 1, 2, 1, 0) + (-36) * mn(p, 1, 0, 3, 0, 2, 2, 1)))) + (((1) * mn(p, 0, 4, 0, 0, 2, 2, 0) + ((-12) * mn(p, 0, 3, 1, 1, 1, 2, 0) + (2) * mn(p, 0, 3, 1, 0, 3, 1, 0))) + ((6) * mn(p, 0, 3, 1, 0, 1, 3, 1) + ((36) * mn(p, 0, 2, 2, 2, 0, 2, 0) + (-18) * mn(p, 0, 2, 2, 1, 2, 1, 0))))) + ((((-36) * mn(p, 0, 2, 2, 1, 0, 3, 1) + ((1) * mn(p, 0, 2, 2, 0, 4, 0, 0) + (12) * mn(p, 0, 2, 2, 0, 2, 2, 1))) + ((9) * mn(p, 0, 2, 2, 0, 0, 4, 2) + ((36) * mn(p, 0, 1, 3, 2, 1, 1, 0) + (-6) * mn(p, 0, 1, 3, 1, 3, 0, 0)))) + (((-54) * mn(p, 0, 1, 3, 1, 1, 2, 1) + ((6) * mn(p, 0, 1, 3, 0, 3, 1, 1) + (18) * mn(p, 0, 1, 3, 0, 1, 3, 2))) + ((9) * mn(p, 0, 0, 4, 2, 2, 0, 0) + ((-18) * mn(p, 0, 0, 4, 1, 2, 1, 1) + (9) * mn(p, 0, 0, 4, 0, 2, 2, 2))))))),
{
    let t0 = (3) * mn(p, 2, 0, 0, 1, 1, 0, 0);
    let t1 = (3) * mn(p, 1, 1, 0, 2, 0, 0, 0);
    let t2 = (-3) * mn(p, 1, 1, 0, 0, 0, 2, 0);
    let t3 = (-6) * mn(p, 1, 0, 1, 0, 1, 1, 0);
    let t4 = (1) * mn(p, 0, 2, 0, 0, 1, 1, 0);
    let t5 = (-6) * mn(p, 0, 1, 1, 1, 0, 1, 0);
    let t6 = (1) * mn(p, 0, 1, 1, 0, 2, 0, 0);
    let t7 = (3) * mn(p, 0, 1, 1, 0, 0, 2, 1);
    let t8 = (-3) * mn(p, 0, 0, 2, 1, 1, 0, 0);
    let t9 = (3) * mn(p, 0, 0, 2, 0, 1, 1, 1);
    let s0 = (3) * mn(p, 2, 0, 0, 1, 1, 0, 0);
    let s1 = (3) * mn(p, 1, 1, 0, 2, 0, 0, 0);
    let s2 = (-3) * mn(p, 1, 1, 0, 0, 0, 2, 0);
    let s3 = (-6) * mn(p, 1, 0, 1, 0, 1, 1, 0);
    let s4 = (1) * mn(p, 0, 2, 0, 0, 1, 1, 0);
    let s5 = (-6) * mn(p, 0, 1, 1, 1, 0, 1, 0);
    let s6 = (1) * mn(p, 0, 1, 1, 0, 2, 0, 0);
    let s7 = (3) * mn(p, 0, 1, 1, 0, 0, 2, 1);
    let s8 = (-3) * mn(p, 0, 0, 2, 1, 1, 0, 0);
    let s9 = (3) * mn(p, 0, 0, 2, 0, 1, 1, 1);
    let pp0 = t0;
    let pp1 = pp0 + t1;
    let pp2 = pp1 + t2;
    let pp3 = pp2 + t3;
    let pp4 = pp3 + t4;
    let pp5 = pp4 + t5;
    let pp6 = pp5 + t6;
    let pp7 = pp6 + t7;
    let pp8 = pp7 + t8;
    let pp9 = pp8 + t9;
    let qq0 = s0;
    let qq1 = qq0 + s1;
    let qq2 = qq1 + s2;
    let qq3 = qq2 + s3;
    let qq4 = qq3 + s4;
    let qq5 = qq4 + s5;
    let qq6 = qq5 + s6;
    let qq7 = qq6 + s7;
    let qq8 = qq7 + s8;
    let qq9 = qq8 + s9;
    let q = qq9;
    lemma_mul_is_distributive_add_other_way(q, pp0, t1);
    lemma_mul_is_distributive_add_other_way(q, pp1, t2);
    lemma_mul_is_distributive_add_other_way(q, pp2, t3);
    lemma_mul_is_distributive_add_other_way(q, pp3, t4);
    lemma_mul_is_distributive_add_other_way(q, pp4, t5);
    lemma_mul_is_distributive_add_other_way(q, pp5, t6);
    lemma_mul_is_distributive_add_other_way(q, pp6, t7);
    lemma_mul_is_distributive_add_other_way(q, pp7, t8);
    lemma_mul_is_distributive_add_other_way(q, pp8, t9);
    lemma_mul_is_distributive_add(t0, qq0, s1);
    lemma_mul_is_distributive_add(t0, qq1, s2);
    lemma_mul_is_distributive_add(t0, qq2, s3);
    lemma_mul_is_distributive_add(t0, qq3, s4);
    lemma_mul_is_distributive_add(t0, qq4, s5);
    lemma_mul_is_distributive_add(t0, qq5, s6);
    lemma_mul_is_distributive_add(t0, qq6, s7);
    lemma_mul_is_distributive_add(t0, qq7, s8);
    lemma_mul_is_distributive_add(t0, qq8, s9);
    lemma_mul_is_distributive_add(t1, qq0, s1);
    lemma_mul_is_distributive_add(t1, qq1, s2);
    lemma_mul_is_distributive_add(t1, qq2, s3);
    lemma_mul_is_distributive_add(t1, qq3, s4);
    lemma_mul_is_distributive_add(t1, qq4, s5);
    lemma_mul_is_distributive_add(t1, qq5, s6);
    lemma_mul_is_distributive_add(t1, qq6, s7);
    lemma_mul_is_distributive_add(t1, qq7, s8);
    lemma_mul_is_distributive_add(t1, qq8, s9);
    lemma_mul_is_distributive_add(t2, qq0, s1);
    lemma_mul_is_distributive_add(t2, qq1, s2);
    lemma_mul_is_distributive_add(t2, qq2, s3);
    lemma_mul_is_distributive_add(t2, qq3, s4);
    lemma_mul_is_distributive_add(t2, qq4, s5);
    lemma_mul_is_distributive_add(t2, qq5, s6);
    lemma_mul_is_distributive_add(t2, qq6, s7);
    lemma_mul_is_distributive_add(t2, qq7, s8);
    lemma_mul_is_distributive_add(t2, qq8, s9);
    lemma_mul_is_distributive_add(t3, qq0, s1);
    lemma_mul_is_distributive_add(t3, qq1, s2);
    lemma_mul_is_distributive_add(t3, qq2, s3);
    lemma_mul_is_distributive_add(t3, qq3, s4);
    lemma_mul_is_distributive_add(t3, qq4, s5);
    lemma_mul_is_distributive_add(t3, qq5, s6);
    lemma_mul_is_distributive_add(t3, qq6, s7);
    lemma_mul_is_distributive_add(t3, qq7, s8);
    lemma_mul_is_distributive_add(t3, qq8, s9);
    lemma_mul_is_distributive_add(t4, qq0, s1);
    lemma_mul_is_distributive_add(t4, qq1, s2);
    lemma_mul_is_distributive_add(t4, qq2, s3);
    lemma_mul_is_distributive_add(t4, qq3, s4);
    lemma_mul_is_distributive_add(t4, qq4, s5);
    lemma_mul_is_distributive_add(t4, qq5, s6);
    lemma_mul_is_distributive_add(t4, qq6, s7);
    lemma_mul_is_distributive_add(t4, qq7, s8);
    lemma_mul_is_distributive_add(t4, qq8, s9);
    lemma_mul_is_distributive_add(t5, qq0, s1);
    lemma_mul_is_distributive_add(t5, qq1, s2);
    lemma_mul_is_distributive_add(t5, qq2, s3);
    lemma_mul_is_distributive_add(t5, qq3, s4);
    lemma_mul_is_distributive_add(t5, qq4, s5);
    lemma_mul_is_distributive_add(t5, qq5, s6);
    lemma_mul_is_distributive_add(t5, qq6, s7);
    lemma_mul_is_distributive_add(t5, qq7, s8);
    lemma_mul_is_distributive_add(t5, qq8, s9);
    lemma_mul_is_distributive_add(t6, qq0, s1);
    lemma_mul_is_distributive_add(t6, qq1, s2);
    lemma_mul_is_distributive_add(t6, qq2, s3);
    lemma_mul_is_distributive_add(t6, qq3, s4);
    lemma_mul_is_distributive_add(t6, qq4, s5);
    lemma_mul_is_distributive_add(t6, qq5, s6);
    lemma_mul_is_distributive_add(t6, qq6, s7);
    lemma_mul_is_distributive_add(t6, qq7, s8);
    lemma_mul_is_distributive_add(t6, qq8, s9);
    lemma_mul_is_distributive_add(t7, qq0, s1);
    lemma_mul_is_distributive_add(t7, qq1, s2);
    lemma_mul_is_distributive_add(t7, qq2, s3);
    lemma_mul_is_distributive_add(t7, qq3, s4);
    lemma_mul_is_distributive_add(t7, qq4, s5);
    lemma_mul_is_distributive_add(t7, qq5, s6);
    lemma_mul_is_distributive_add(t7, qq6, s7);
    lemma_mul_is_distributive_add(t7, qq7, s8);
    lemma_mul_is_distributive_add(t7, qq8, s9);
    lemma_mul_is_distributive_add(t8, qq0, s1);
    lemma_mul_is_distributive_add(t8, qq1, s2);
    lemma_mul_is_distributive_add(t8, qq2, s3);
    lemma_mul_is_distributive_add(t8, qq3, s4);
    lemma_mul_is_distributive_add(t8, qq4, s5);
    lemma_mul_is_distributive_add(t8, qq5, s6);
    lemma_mul_is_distributive_add(t8, qq6, s7);
    lemma_mul_is_distributive_add(t8, qq7, s8);
    lemma_mul_is_distributive_add(t8, qq8, s9);
    lemma_mul_is_distributive_add(t9, qq0, s1);
    lemma_mul_is_distributive_add(t9, qq1, s2);
    lemma_mul_is_distributive_add(t9, qq2, s3);
    lemma_mul_is_distributive_add(t9, qq3, s4);
    lemma_mul_is_distributive_add(t9, qq4, s5);
    lemma_mul_is_distributive_add(t9, qq5, s6);
    lemma_mul_is_distributive_add(t9, qq6, s7);
    lemma_mul_is_distributive_add(t9, qq7, s8);
    lemma_mul_is_distributive_add(t9, qq8, s9);
    lemma_tm(p, 3, 2, 0, 0, 1, 1, 0, 0, 3, 2, 0, 0, 1, 1, 0, 0);
    assert(t0 * s0 == (9) * mn(p, 4, 0, 0, 2, 2, 0, 0));
    lemma_tm(p, 3, 2, 0, 0, 1, 1, 0, 0, 3, 1, 1, 0, 2, 0, 0, 0);
    assert(t0 * s1 == (9) * mn(p, 3, 1, 0, 3, 1, 0, 0));
    lemma_tm(p, 3, 2, 0, 0, 1, 1, 0, 0, -3, 1, 1, 0, 0, 0, 2, 0);
    assert(t0 * s2 == (-9) * mn(p, 3, 1, 0, 1, 1, 2, 0));
    lemma_tm(p, 3, 2, 0, 0, 1, 1, 0, 0, -6, 1, 0, 1, 0, 1, 1, 0);
    assert(t0 * s3 == (-18) * mn(p, 3, 0, 1, 1, 2, 1, 0));
    lemma_tm(p, 3, 2, 0, 0, 1, 1, 0, 0, 1, 0, 2, 0, 0, 1, 1, 0);
    assert(t0 * s4 == (3) * mn(p, 2, 2, 0, 1, 2, 1, 0));
    lemma_tm(p, 3, 2, 0, 0, 1, 1, 0, 0, -6, 0, 1, 1, 1, 0, 1, 0);
    assert(t0 * s5 == (-18) * mn(p, 2, 1, 1, 2, 1, 1, 0));
    lemma_tm(p, 3, 2, 0, 0, 1, 1, 0, 0, 1, 0, 1, 1, 0, 2, 0, 0);
    assert(t0 * s6 == (3) * mn(p, 2, 1, 1, 1, 3, 0, 0));
    lemma_tm(p, 3, 2, 0, 0, 1, 1, 0, 0, 3, 0, 1, 1, 0, 0, 2, 1);
    assert(t0 * s7 == (9) * mn(p, 2, 1, 1, 1, 1, 2, 1));
    lemma_tm(p, 3, 2, 0, 0, 1, 1, 0, 0, -3, 0, 0, 2, 1, 1, 0, 0);
    assert(t0 * s8 == (-9) * mn(p, 2, 0, 2, 2, 2, 0, 0));
    lemma_tm(p, 3, 2, 0, 0, 1, 1, 0, 0, 3, 0, 0, 2, 0, 1, 1, 1);
    assert(t0 * s9 == (9) * mn(p, 2, 0, 2, 1, 2, 1, 1));
    assert(t0 * q == (9) * mn(p, 4, 0, 0, 2, 2, 0, 0) + (9) * mn(p, 3, 1, 0, 3, 1, 0, 0) + (-9) * mn(p, 3, 1, 0, 1, 1, 2, 0) + (-18) * mn(p, 3, 0, 1, 1, 2, 1, 0) + (3) * mn(p, 2, 2, 0, 1, 2, 1, 0) + (-18) * mn(p, 2, 1, 1, 2, 1, 1, 0) + (3) * mn(p, 2, 1, 1, 1, 3, 0, 0) + (9) * mn(p, 2, 1, 1, 1, 1, 2, 1) + (-9) * mn(p, 2, 0, 2, 2, 2, 0, 0) + (9) * mn(p, 2, 0, 2, 1, 2, 1, 1));
    lemma_tm(p, 3, 1, 1, 0, 2, 0, 0, 0, 3, 2, 0, 0, 1, 1, 0, 0);
    assert(t1 * s0 == (9) * mn(p, 3, 1, 0, 3, 1, 0, 0));
    lemma_tm(p, 3, 1, 1, 0, 2, 0, 0, 0, 3, 1, 1, 0, 2, 0, 0, 0);
    assert(t1 * s1 == (9) * mn(p, 2, 2, 0, 4, 0, 0, 0));
    lemma_tm(p, 3, 1, 1, 0, 2, 0, 0, 0, -3, 1, 1, 0, 0, 0, 2, 0);
    assert(t1 * s2 == (-9) * mn(p, 2, 2, 0, 2, 0, 2, 0));
    lemma_tm(p, 3, 1, 1, 0, 2, 0, 0, 0, -6, 1, 0, 1, 0, 1, 1, 0);
    assert(t1 * s3 == (-18) * mn(p, 2, 1, 1, 2, 1, 1, 0));
    lemma_tm(p, 3, 1, 1, 0, 2, 0, 0, 0, 1, 0, 2, 0, 0, 1, 1, 0);
    assert(t1 * s4 == (3) * mn(p, 1, 3, 0, 2, 1, 1, 0));
    lemma_tm(p, 3, 1, 1, 0, 2, 0, 0, 0, -6, 0, 1, 1, 1, 0, 1, 0);
    assert(t1 * s5 == (-18) * mn(p, 1, 2, 1, 3, 0, 1, 0));
    lemma_tm(p, 3, 1, 1, 0, 2, 0, 0, 0, 1, 0, 1, 1, 0, 2, 0, 0);
    assert(t1 * s6 == (3) * mn(p, 1, 2, 1, 2, 2, 0, 0));
    lemma_tm(p, 3, 1, 1, 0, 2, 0, 0, 0, 3, 0, 1, 1, 0, 0, 2, 1);
    assert(t1 * s7 == (9) * mn(p, 1, 2, 1, 2, 0, 2, 1));
    lemma_tm(p, 3, 1, 1, 0, 2, 0, 0, 0, -3, 0, 0, 2, 1, 1, 0, 0);
    assert(t1 * s8 == (-9) * mn(p, 1, 1, 2, 3, 1, 0, 0));
    lemma_tm(p, 3, 1, 1, 0, 2, 0, 0, 0, 3, 0, 0, 2, 0, 1, 1, 1);
    assert(t1 * s9 == (9) * mn(p, 1, 1, 2, 2, 1, 1, 1));
    assert(t1 * q == (9) * mn(p, 3, 1, 0, 3, 1, 0, 0) + (9) * mn(p, 2, 2, 0, 4, 0, 0, 0) + (-9) * mn(p, 2, 2, 0, 2, 0, 2, 0) + (-18) * mn(p, 2, 1, 1, 2, 1, 1, 0) + (3) * mn(p, 1, 3, 0, 2, 1, 1, 0) + (-18) * mn(p, 1, 2, 1, 3, 0, 1, 0) + (3) * mn(p, 1, 2, 1, 2, 2, 0, 0) + (9) * mn(p, 1, 2, 1, 2, 0, 2, 1) + (-9) * mn(p, 1, 1, 2, 3, 1, 0, 0) + (9) * mn(p, 1, 1, 2, 2, 1, 1, 1));
    lemma_tm(p, -3, 1, 1, 0, 0, 0, 2, 0, 3, 2, 0, 0, 1, 1, 0, 0);
    assert(t2 * s0 == (-9) * mn(p, 3, 1, 0, 1, 1, 2, 0));
    lemma_tm(p, -3, 1, 1, 0, 0, 0, 2, 0, 3, 1, 1, 0, 2, 0, 0, 0);
    assert(t2 * s1 == (-9) * mn(p, 2, 2, 0, 2, 0, 2, 0));
    lemma_tm(p, -3, 1, 1, 0, 0, 0, 2, 0, -3, 1, 1, 0, 0, 0, 2, 0);
    assert(t2 * s2 == (9) * mn(p, 2, 2, 0, 0, 0, 4, 0));
    lemma_tm(p, -3, 1, 1, 0, 0, 0, 2, 0, -6, 1, 0, 1, 0, 1, 1, 0);
    assert(t2 * s3 == (18) * mn(p, 2, 1, 1, 0, 1, 3, 0));
    lemma_tm(p, -3, 1, 1, 0, 0, 0, 2, 0, 1, 0, 2, 0, 0, 1, 1, 0);
    assert(t2 * s4 == (-3) * mn(p, 1, 3, 0, 0, 1, 3, 0));
    lemma_tm(p, -3, 1, 1, 0, 0, 0, 2, 0, -6, 0, 1, 1, 1, 0, 1, 0);
    assert(t2 * s5 == (18) * mn(p, 1, 2, 1, 1, 0, 3, 0));
    lemma_tm(p, -3, 1, 1, 0, 0, 0, 2, 0, 1, 0, 1, 1, 0, 2, 0, 0);
    assert(t2 * s6 == (-3) * mn(p, 1, 2, 1, 0, 2, 2, 0));
    lemma_tm(p, -3, 1, 1, 0, 0, 0, 2, 0, 3, 0, 1, 1, 0, 0, 2, 1);
    assert(t2 * s7 == (-9) * mn(p, 1, 2, 1, 0, 0, 4, 1));
    lemma_tm(p, -3, 1, 1, 0, 0, 0, 2, 0, -3, 0, 0, 2, 1, 1, 0, 0);
    assert(t2 * s8 == (9) * mn(p, 1, 1, 2, 1, 1, 2, 0));
    lemma_tm(p, -3, 1, 1, 0, 0, 0, 2, 0, 3, 0, 0, 2, 0, 1, 1, 1);
    assert(t2 * s9 == (-9) * mn(p, 1, 1, 2, 0, 1, 3, 1));
    assert(t2 * q == (-9) * mn(p, 3, 1, 0, 1, 1, 2, 0) + (-9) * mn(p, 2, 2, 0, 2, 0, 2, 0) + (9) * mn(p, 2, 2, 0, 0, 0, 4, 0) + (18) * mn(p, 2, 1, 1, 0, 1, 3, 0) + (-3) * mn(p, 1, 3, 0, 0, 1, 3, 0) + (18) * mn(p, 1, 2, 1, 1, 0, 3, 0) + (-3) * mn(p, 1, 2, 1, 0, 2, 2, 0) + (-9) * mn(p, 1, 2, 1, 0, 0, 4, 1) + (9) * mn(p, 1, 1, 2, 1, 1, 2, 0) + (-9) * mn(p, 1, 1, 2, 0, 1, 3, 1));
    lemma_tm(p, -6, 1, 0, 1, 0, 1, 1, 0, 3, 2, 0, 0, 1, 1, 0, 0);
    assert(t3 * s0 == (-18) * mn(p, 3, 0, 1, 1, 2, 1, 0));
    lemma_tm(p, -6, 1, 0, 1, 0, 1, 1, 0, 3, 1, 1, 0, 2, 0, 0, 0);
    assert(t3 * s1 == (-18) * mn(p, 2, 1, 1, 2, 1, 1, 0));
    lemma_tm(p, -6, 1, 0, 1, 0, 1, 1, 0, -3, 1, 1, 0, 0, 0, 2, 0);
    assert(t3 * s2 == (18) * mn(p, 2, 1, 1, 0, 1, 3, 0));
    lemma_tm(p, -6, 1, 0, 1, 0, 1, 1, 0, -6, 1, 0, 1, 0, 1, 1, 0);
    assert(t3 * s3 == (36) * mn(p, 2, 0, 2, 0, 2, 2, 0));
    lemma_tm(p, -6, 1, 0, 1, 0, 1, 1, 0, 1, 0, 2, 0, 0, 1, 1, 0);
    assert(t3 * s4 == (-6) * mn(p, 1, 2, 1, 0, 2, 2, 0));
    lemma_tm(p, -6, 1, 0, 1, 0, 1, 1, 0, -6, 0, 1, 1, 1, 0, 1, 0);
    assert(t3 * s5 == (36) * mn(p, 1, 1, 2, 1, 1, 2, 0));
    lemma_tm(p, -6, 1, 0, 1, 0, 1, 1, 0, 1, 0, 1, 1, 0, 2, 0, 0);
    assert(t3 * s6 == (-6) * mn(p, 1, 1, 2, 0, 3, 1, 0));
    lemma_tm(p, -6, 1, 0, 1, 0, 1, 1, 0, 3, 0, 1, 1, 0, 0, 2, 1);
    assert(t3 * s7 == (-18) * mn(p, 1, 1, 2, 0, 1, 3, 1));
    lemma_tm(p, -6, 1, 0, 1, 0, 1, 1, 0, -3, 0, 0, 2, 1, 1, 0, 0);
    assert(t3 * s8 == (18) * mn(p, 1, 0, 3, 1, 2, 1, 0));
    lemma_tm(p, -6, 1, 0, 1, 0, 1, 1, 0, 3, 0, 0, 2, 0, 1, 1, 1);
    assert(t3 * s9 == (-18) * mn(p, 1, 0, 3, 0, 2, 2, 1));
    assert(t3 * q == (-18) * mn(p, 3, 0, 1, 1, 2, 1, 0) + (-18) * mn(p, 2, 1, 1, 2, 1, 1, 0) + (18) * mn(p, 2, 1, 1, 0, 1, 3, 0) + (36) * mn(p, 2, 0, 2, 0, 2, 2, 0) + (-6) * mn(p, 1, 2, 1, 0, 2, 2, 0) + (36) * mn(p, 1, 1, 2, 1, 1, 2, 0) + (-6) * mn(p, 1, 1, 2, 0, 3, 1, 0) + (-18) * mn(p, 1, 1, 2, 0, 1, 3, 1) + (18) * mn(p, 1, 0, 3, 1, 2, 1, 0) + (-18) * mn(p, 1, 0, 3, 0, 2, 2, 1));
    lemma_tm(p, 1, 0, 2, 0, 0, 1, 1, 0, 3, 2, 0, 0, 1, 1, 0, 0);
    assert(t4 * s0 == (3) * mn(p, 2, 2, 0, 1, 2, 1, 0));
    lemma_tm(p, 1, 0, 2, 0, 0, 1, 1, 0, 3, 1, 1, 0, 2, 0, 0, 0);
    assert(t4 * s1 == (3) * mn(p, 1, 3, 0, 2, 1, 1, 0));
    lemma_tm(p, 1, 0, 2, 0, 0, 1, 1, 0, -3, 1, 1, 0, 0, 0, 2, 0);
    assert(t4 * s2 == (-3) * mn(p, 1, 3, 0, 0, 1, 3, 0));
    lemma_tm(p, 1, 0, 2, 0, 0, 1, 1, 0, -6, 1, 0, 1, 0, 1, 1, 0);
    assert(t4 * s3 == (-6) * mn(p, 1, 2, 1, 0, 2, 2, 0));
    lemma_tm(p, 1, 0, 2, 0, 0, 1, 1, 0, 1, 0, 2, 0, 0, 1, 1, 0);
    assert(t4 * s4 == (1) * mn(p, 0, 4, 0, 0, 2, 2, 0));
    lemma_tm(p, 1, 0, 2, 0, 0, 1, 1, 0, -6, 0, 1, 1, 1, 0, 1, 0);
    assert(t4 * s5 == (-6) * mn(p, 0, 3, 1, 1, 1, 2, 0));
    lemma_tm(p, 1, 0, 2, 0, 0, 1, 1, 0, 1, 0, 1, 1, 0, 2, 0, 0);
    assert(t4 * s6 == (1) * mn(p, 0, 3, 1, 0, 3, 1, 0));
    lemma_tm(p, 1, 0, 2, 0, 0, 1, 1, 0, 3, 0, 1, 1, 0, 0, 2, 1);
    assert(t4 * s7 == (3) * mn(p, 0, 3, 1, 0, 1, 3, 1));
    lemma_tm(p, 1, 0, 2, 0, 0, 1, 1, 0, -3, 0, 0, 2, 1, 1, 0, 0);
    assert(t4 * s8 == (-3) * mn(p, 0, 2, 2, 1, 2, 1, 0));
    lemma_tm(p, 1, 0, 2, 0, 0, 1, 1, 0, 3, 0, 0, 2, 0, 1, 1, 1);
    assert(t4 * s9 == (3) * mn(p, 0, 2, 2, 0, 2, 2, 1));
    assert(t4 * q == (3) * mn(p, 2, 2, 0, 1, 2, 1, 0) + (3) * mn(p, 1, 3, 0, 2, 1, 1, 0) + (-3) * mn(p, 1, 3, 0, 0, 1, 3, 0) + (-6) * mn(p, 1, 2, 1, 0, 2, 2, 0) + (1) * mn(p, 0, 4, 0, 0, 2, 2, 0) + (-6) * mn(p, 0, 3, 1, 1, 1, 2, 0) + (1) * mn(p, 0, 3, 1, 0, 3, 1, 0) + (3) * mn(p, 0, 3, 1, 0, 1, 3, 1) + (-3) * mn(p, 0, 2, 2, 1, 2, 1, 0) + (3) * mn(p, 0, 2, 2, 0, 2, 2, 1));
    lemma_tm(p, -6, 0, 1, 1, 1, 0, 1, 0, 3, 2, 0, 0, 1, 1, 0, 0);
    assert(t5 * s0 == (-18) * mn(p, 2, 1, 1, 2, 1, 1, 0));
    lemma_tm(p, -6, 0, 1, 1, 1, 0, 1, 0, 3, 1, 1, 0, 2, 0, 0, 0);
    assert(t5 * s1 == (-18) * mn(p, 1, 2, 1, 3, 0, 1, 0));
    lemma_tm(p, -6, 0, 1, 1, 1, 0, 1, 0, -3, 1, 1, 0, 0, 0, 2, 0);
    assert(t5 * s2 == (18) * mn(p, 1, 2, 1, 1, 0, 3, 0));
    lemma_tm(p, -6, 0, 1, 1, 1, 0, 1, 0, -6, 1, 0, 1, 0, 1, 1, 0);
    assert(t5 * s3 == (36) * mn(p, 1, 1, 2, 1, 1, 2, 0));
    lemma_tm(p, -6, 0, 1, 1, 1, 0, 1, 0, 1, 0, 2, 0, 0, 1, 1, 0);
    assert(t5 * s4 == (-6) * mn(p, 0, 3, 1, 1, 1, 2, 0));
    lemma_tm(p, -6, 0, 1, 1, 1, 0, 1, 0, -6, 0, 1, 1, 1, 0, 1, 0);
    assert(t5 * s5 == (36) * mn(p, 0, 2, 2, 2, 0, 2, 0));
    lemma_tm(p, -6, 0, 1, 1, 1, 0, 1, 0, 1, 0, 1, 1, 0, 2, 0, 0);
    assert(t5 * s6 == (-6) * mn(p, 0, 2, 2, 1, 2, 1, 0));
    lemma_tm(p, -6, 0, 1, 1, 1, 0, 1, 0, 3, 0, 1, 1, 0, 0, 2, 1);
    assert(t5 * s7 == (-18) * mn(p, 0, 2, 2, 1, 0, 3, 1));
    lemma_tm(p, -6, 0, 1, 1, 1, 0, 1, 0, -3, 0, 0, 2, 1, 1, 0, 0);
    assert(t5 * s8 == (18) * mn(p, 0, 1, 3, 2, 1, 1, 0));
    lemma_tm(p, -6, 0, 1, 1, 1, 0, 1, 0, 3, 0, 0, 2, 0, 1, 1, 1);
    assert(t5 * s9 == (-18) * mn(p, 0, 1, 3, 1, 1, 2, 1));
    assert(t5 * q == (-18) * mn(p, 2, 1, 1, 2, 1, 1, 0) + (-18) * mn(p, 1, 2, 1, 3, 0, 1, 0) + (18) * mn(p, 1, 2, 1, 1, 0, 3, 0) + (36) * mn(p, 1, 1, 2, 1, 1, 2, 0) + (-6) * mn(p, 0, 3, 1, 1, 1, 2, 0) + (36) * mn(p, 0, 2, 2, 2, 0, 2, 0) + (-6) * mn(p, 0, 2, 2, 1, 2, 1, 0) + (-18) * mn(p, 0, 2, 2, 1, 0, 3, 1) + (18) * mn(p, 0, 1, 3, 2, 1, 1, 0) + (-18) * mn(p, 0, 1, 3, 1, 1, 2, 1));
    lemma_tm(p, 1, 0, 1, 1, 0, 2, 0, 0, 3, 2, 0, 0, 1, 1, 0, 0);
    assert(t6 * s0 == (3) * mn(p, 2, 1, 1, 1, 3, 0, 0));
    lemma_tm(p, 1, 0, 1, 1, 0, 2, 0, 0, 3, 1, 1, 0, 2, 0, 0, 0);
    assert(t6 * s1 == (3) * mn(p, 1, 2, 1, 2, 2, 0, 0));
    lemma_tm(p, 1, 0, 1, 1, 0, 2, 0, 0, -3, 1, 1, 0, 0, 0, 2, 0);
    assert(t6 * s2 == (-3) * mn(p, 1, 2, 1, 0, 2, 2, 0));
    lemma_tm(p, 1, 0, 1, 1, 0, 2, 0, 0, -6, 1, 0, 1, 0, 1, 1, 0);
    assert(t6 * s3 == (-6) * mn(p, 1, 1, 2, 0, 3, 1, 0));
    lemma_tm(p, 1, 0, 1, 1, 0, 2, 0, 0, 1, 0, 2, 0, 0, 1, 1, 0);
    assert(t6 * s4 == (1) * mn(p, 0, 3, 1, 0, 3, 1, 0));
    lemma_tm(p, 1, 0, 1, 1, 0, 2, 0, 0, -6, 0, 1, 1, 1, 0, 1, 0);
    assert(t6 * s5 == (-6) * mn(p, 0, 2, 2, 1, 2, 1, 0));
    lemma_tm(p, 1, 0, 1, 1, 0, 2, 0, 0, 1, 0, 1, 1, 0, 2, 0, 0);
    assert(t6 * s6 == (1) * mn(p, 0, 2, 2, 0, 4, 0, 0));
    lemma_tm(p, 1, 0, 1, 1, 0, 2, 0, 0, 3, 0, 1, 1, 0, 0, 2, 1);
    assert(t6 * s7 == (3) * mn(p, 0, 2, 2, 0, 2, 2, 1));
    lemma_tm(p, 1, 0, 1, 1, 0, 2, 0, 0, -3, 0, 0, 2, 1, 1, 0, 0);
    assert(t6 * s8 == (-3) * mn(p, 0, 1, 3, 1, 3, 0, 0));
    lemma_tm(p, 1, 0, 1, 1, 0, 2, 0, 0, 3, 0, 0, 2, 0, 1, 1, 1);
    assert(t6 * s9 == (3) * mn(p, 0, 1, 3, 0, 3, 1, 1));
    assert(t6 * q == (3) * mn(p, 2, 1, 1, 1, 3, 0, 0) + (3) * mn(p, 1, 2, 1, 2, 2, 0, 0) + (-3) * mn(p, 1, 2, 1, 0, 2, 2, 0) + (-6) * mn(p, 1, 1, 2, 0, 3, 1, 0) + (1) * mn(p, 0, 3, 1, 0, 3, 1, 0) + (-6) * mn(p, 0, 2, 2, 1, 2, 1, 0) + (1) * mn(p, 0, 2, 2, 0, 4, 0, 0) + (3) * mn(p, 0, 2, 2, 0, 2, 2, 1) + (-3) * mn(p, 0, 1, 3, 1, 3, 0, 0) + (3) * mn(p, 0, 1, 3, 0, 3, 1, 1));
    lemma_tm(p, 3, 0, 1, 1, 0, 0, 2, 1, 3, 2, 0, 0, 1, 1, 0, 0);
    assert(t7 * s0 == (9) * mn(p, 2, 1, 1, 1, 1, 2, 1));
    lemma_tm(p, 3, 0, 1, 1, 0, 0, 2, 1, 3, 1, 1, 0, 2, 0, 0, 0);
    assert(t7 * s1 == (9) * mn(p, 1, 2, 1, 2, 0, 2, 1));
    lemma_tm(p, 3, 0, 1, 1, 0, 0, 2, 1, -3, 1, 1, 0, 0, 0, 2, 0);
    assert(t7 * s2 == (-9) * mn(p, 1, 2, 1, 0, 0, 4, 1));
    lemma_tm(p, 3, 0, 1, 1, 0, 0, 2, 1, -6, 1, 0, 1, 0, 1, 1, 0);
    assert(t7 * s3 == (-18) * mn(p, 1, 1, 2, 0, 1, 3, 1));
    lemma_tm(p, 3, 0, 1, 1, 0, 0, 2, 1, 1, 0, 2, 0, 0, 1, 1, 0);
    assert(t7 * s4 == (3) * mn(p, 0, 3, 1, 0, 1, 3, 1));
    lemma_tm(p, 3, 0, 1, 1, 0, 0, 2, 1, -6, 0, 1, 1, 1, 0, 1, 0);
    assert(t7 * s5 == (-18) * mn(p, 0, 2, 2, 1, 0, 3, 1));
    lemma_tm(p, 3, 0, 1, 1, 0, 0, 2, 1, 1, 0, 1, 1, 0, 2, 0, 0);
    assert(t7 * s6 == (3) * mn(p, 0, 2, 2, 0, 2, 2, 1));
    lemma_tm(p, 3, 0, 1, 1, 0, 0, 2, 1, 3, 0, 1, 1, 0, 0, 2, 1);
    assert(t7 * s7 == (9) * mn(p, 0, 2, 2, 0, 0, 4, 2));
    lemma_tm(p, 3, 0, 1, 1, 0, 0, 2, 1, -3, 0, 0, 2, 1, 1, 0, 0);
    assert(t7 * s8 == (-9) * mn(p, 0, 1, 3, 1, 1, 2, 1));
    lemma_tm(p, 3, 0, 1, 1, 0, 0, 2, 1, 3, 0, 0, 2, 0, 1, 1, 1);
    assert(t7 * s9 == (9) * mn(p, 0, 1, 3, 0, 1, 3, 2));
    assert(t7 * q == (9) * mn(p, 2, 1, 1, 1, 1, 2, 1) + (9) * mn(p, 1, 2, 1, 2, 0, 2, 1) + (-9) * mn(p, 1, 2, 1, 0, 0, 4, 1) + (-18) * mn(p, 1, 1, 2, 0, 1, 3, 1) + (3) * mn(p, 0, 3, 1, 0, 1, 3, 1) + (-18) * mn(p, 0, 2, 2, 1, 0, 3, 1) + (3) * mn(p, 0, 2, 2, 0, 2, 2, 1) + (9) * mn(p, 0, 2, 2, 0, 0, 4, 2) + (-9) * mn(p, 0, 1, 3, 1, 1, 2, 1) + (9) * mn(p, 0, 1, 3, 0, 1, 3, 2));
    lemma_tm(p, -3, 0, 0, 2, 1, 1, 0, 0, 3, 2, 0, 0, 1, 1, 0, 0);
    assert(t8 * s0 == (-9) * mn(p, 2, 0, 2, 2, 2, 0, 0));
    lemma_tm(p, -3, 0, 0, 2, 1, 1, 0, 0, 3, 1, 1, 0, 2, 0, 0, 0);
    assert(t8 * s1 == (-9) * mn(p, 1, 1, 2, 3, 1, 0, 0));
    lemma_tm(p, -3, 0, 0, 2, 1, 1, 0, 0, -3, 1, 1, 0, 0, 0, 2, 0);
    assert(t8 * s2 == (9) * mn(p, 1, 1, 2, 1, 1, 2, 0));
    lemma_tm(p, -3, 0, 0, 2, 1, 1, 0, 0, -6, 1, 0, 1, 0, 1, 1, 0);
    assert(t8 * s3 == (18) * mn(p, 1, 0, 3, 1, 2, 1, 0));
    lemma_tm(p, -3, 0, 0, 2, 1, 1, 0, 0, 1, 0, 2, 0, 0, 1, 1, 0);
    assert(t8 * s4 == (-3) * mn(p, 0, 2, 2, 1, 2, 1, 0));
    lemma_tm(p, -3, 0, 0, 2, 1, 1, 0, 0, -6, 0, 1, 1, 1, 0, 1, 0);
    assert(t8 * s5 == (18) * mn(p, 0, 1, 3, 2, 1, 1, 0));
    lemma_tm(p, -3, 0, 0, 2, 1, 1, 0, 0, 1, 0, 1, 1, 0, 2, 0, 0);
    assert(t8 * s6 == (-3) * mn(p, 0, 1, 3, 1, 3, 0, 0));
    lemma_tm(p, -3, 0, 0, 2, 1, 1, 0, 0, 3, 0, 1, 1, 0, 0, 2, 1);
    assert(t8 * s7 == (-9) * mn(p, 0, 1, 3, 1, 1, 2, 1));
    lemma_tm(p, -3, 0, 0, 2, 1, 1, 0, 0, -3, 0, 0, 2, 1, 1, 0, 0);
    assert(t8 * s8 == (9) * mn(p, 0, 0, 4, 2, 2, 0, 0));
    lemma_tm(p, -3, 0, 0, 2, 1, 1, 0, 0, 3, 0, 0, 2, 0, 1, 1, 1);
    assert(t8 * s9 == (-9) * mn(p, 0, 0, 4, 1, 2, 1, 1));
    assert(t8 * q == (-9) * mn(p, 2, 0, 2, 2, 2, 0, 0) + (-9) * mn(p, 1, 1, 2, 3, 1, 0, 0) + (9) * mn(p, 1, 1, 2, 1, 1, 2, 0) + (18) * mn(p, 1, 0, 3, 1, 2, 1, 0) + (-3) * mn(p, 0, 2, 2, 1, 2, 1, 0) + (18) * mn(p, 0, 1, 3, 2, 1, 1, 0) + (-3) * mn(p, 0, 1, 3, 1, 3, 0, 0) + (-9) * mn(p, 0, 1, 3, 1, 1, 2, 1) + (9) * mn(p, 0, 0, 4, 2, 2, 0, 0) + (-9) * mn(p, 0, 0, 4, 1, 2, 1, 1));
    lemma_tm(p, 3, 0, 0, 2, 0, 1, 1, 1, 3, 2, 0, 0, 1, 1, 0, 0);
    assert(t9 * s0 == (9) * mn(p, 2, 0, 2, 1, 2, 1, 1));
    lemma_tm(p, 3, 0, 0, 2, 0, 1, 1, 1, 3, 1, 1, 0, 2, 0, 0, 0);
    assert(t9 * s1 == (9) * mn(p, 1, 1, 2, 2, 1, 1, 1));
    lemma_tm(p, 3, 0, 0, 2, 0, 1, 1, 1, -3, 1, 1, 0, 0, 0, 2, 0);
    assert(t9 * s2 == (-9) * mn(p, 1, 1, 2, 0, 1, 3, 1));
    lemma_tm(p, 3, 0, 0, 2, 0, 1, 1, 1, -6, 1, 0, 1, 0, 1, 1, 0);
    assert(t9 * s3 == (-18) * mn(p, 1, 0, 3, 0, 2, 2, 1));
    lemma_tm(p, 3, 0, 0, 2, 0, 1, 1, 1, 1, 0, 2, 0, 0, 1, 1, 0);
    assert(t9 * s4 == (3) * mn(p, 0, 2, 2, 0, 2, 2, 1));
    lemma_tm(p, 3, 0, 0, 2, 0, 1, 1, 1, -6, 0, 1, 1, 1, 0, 1, 0);
    assert(t9 * s5 == (-18) * mn(p, 0, 1, 3, 1, 1, 2, 1));
    lemma_tm(p, 3, 0, 0, 2, 0, 1, 1, 1, 1, 0, 1, 1, 0, 2, 0, 0);
    assert(t9 * s6 == (3) * mn(p, 0, 1, 3, 0, 3, 1, 1));
    lemma_tm(p, 3, 0, 0, 2, 0, 1, 1, 1, 3, 0, 1, 1, 0, 0, 2, 1);
    assert(t9 * s7 == (9) * mn(p, 0, 1, 3, 0, 1, 3, 2));
    lemma_tm(p, 3, 0, 0, 2, 0, 1, 1, 1, -3, 0, 0, 2, 1, 1, 0, 0);
    assert(t9 * s8 == (-9) * mn(p, 0, 0, 4, 1, 2, 1, 1));
    lemma_tm(p, 3, 0, 0, 2, 0, 1, 1, 1, 3, 0, 0, 2, 0, 1, 1, 1);
    assert(t9 * s9 == (9) * mn(p, 0, 0, 4, 0, 2, 2, 2));
    assert(t9 * q == (9) * mn(p, 2, 0, 2, 1, 2, 1, 1) + (9) * mn(p, 1, 1, 2, 2, 1, 1, 1) + (-9) * mn(p, 1, 1, 2, 0, 1, 3, 1) + (-18) * mn(p, 1, 0, 3, 0, 2, 2, 1) + (3) * mn(p, 0, 2, 2, 0, 2, 2, 1) + (-18) * mn(p, 0, 1, 3, 1, 1, 2, 1) + (3) * mn(p, 0, 1, 3, 0, 3, 1, 1) + (9) * mn(p, 0, 1, 3, 0, 1, 3, 2) + (-9) * mn(p, 0, 0, 4, 1, 2, 1, 1) + (9) * mn(p, 0, 0, 4, 0, 2, 2, 2));
    assert(pp9 * q == ((((((9) * mn(p, 4, 0, 0, 2, 2, 0, 0) + ((18) * mn(p, 3, 1, 0, 3, 1, 0, 0) + (-18) * mn(p, 3, 1, 0, 1, 1, 2, 0))) + ((-36) * mn(p, 3, 0, 1, 1, 2, 1, 0) + ((9) * mn(p, 2, 2, 0, 4, 0, 0, 0) + (-18) * mn(p, 2, 2, 0, 2, 0, 2, 0)))) + (((6) * mn(p, 2, 2, 0, 1, 2, 1, 0) + ((9) * mn(p, 2, 2, 0, 0, 0, 4, 0) + (-72) * mn(p, 2, 1, 1, 2, 1, 1, 0))) + ((6) * mn(p, 2, 1, 1, 1, 3, 0, 0) + ((18) * mn(p, 2, 1, 1, 1, 1, 2, 1) + (36) * mn(p, 2, 1, 1, 0, 1, 3, 0))))) + ((((-18) * mn(p, 2, 0, 2, 2, 2, 0, 0) + ((18) * mn(p, 2, 0, 2, 1, 2, 1, 1) + (36) * mn(p, 2, 0, 2, 0, 2, 2, 0))) + ((6) * mn(p, 1, 3, 0, 2, 1, 1, 0) + ((-6) * mn(p, 1, 3, 0, 0, 1, 3, 0) + (-36) * mn(p, 1, 2, 1, 3, 0, 1, 0)))) + (((6) * mn(p, 1, 2, 1, 2, 2, 0, 0) + ((18) * mn(p, 1, 2, 1, 2, 0, 2, 1) + (36) * mn(p, 1, 2, 1, 1, 0, 3, 0))) + ((-18) * mn(p, 1, 2, 1, 0, 2, 2, 0) + ((-18) * mn(p, 1, 2, 1, 0, 0, 4, 1) + (-18) * mn(p, 1, 1, 2, 3, 1, 0, 0)))))) + (((((18) * mn(p, 1, 1, 2, 2, 1, 1, 1) + ((90) * mn(p, 1, 1, 2, 1, 1, 2, 0) + (-12) * mn(p, 1, 1, 2, 0, 3, 1, 0))) + ((-54) * mn(p, 1, 1, 2, 0, 1, 3, 1) + ((36) * mn(p, 1, 0, 3, 1, 2, 1, 0) + (-36) * mn(p, 1, 0, 3, 0, 2, 2, 1)))) + (((1) * mn(p, 0, 4, 0, 0, 2, 2, 0) + ((-12) * mn(p, 0, 3, 1, 1, 1, 2, 0) + (2) * mn(p, 0, 3, 1, 0, 3, 1, 0))) + ((6) * mn(p, 0, 3, 1, 0, 1, 3, 1) + ((36) * mn(p, 0, 2, 2, 2, 0, 2, 0) + (-18) * mn(p, 0, 2, 2, 1, 2, 1, 0))))) + ((((-36) * mn(p, 0, 2, 2, 1, 0, 3, 1) + ((1) * mn(p, 0, 2, 2, 0, 4, 0, 0) + (12) * mn(p, 0, 2, 2, 0, 2, 2, 1))) + ((9) * mn(p, 0, 2, 2, 0, 0, 4, 2) + ((36) * mn(p, 0, 1, 3, 2, 1, 1, 0) + (-6) * mn(p, 0, 1, 3, 1, 3, 0, 0)))) + (((-54) * mn(p, 0, 1, 3, 1, 1, 2, 1) + ((6) * mn(p, 0, 1, 3, 0, 3, 1, 1) + (18) * mn(p, 0, 1, 3, 0, 1, 3, 2))) + ((9) * mn(p, 0, 0, 4, 2, 2, 0, 0) + ((-18) * mn(p, 0, 0, 4, 1, 2, 1, 1) + (9) * mn(p, 0, 0, 4, 0, 2, 2, 2))))))));
    assert(pp9 == ((((3) * mn(p, 2, 0, 0, 1, 1, 0, 0) + (3) * mn(p, 1, 1, 0, 2, 0, 0, 0)) + ((-3) * mn(p, 1, 1, 0, 0, 0, 2, 0) + ((-6) * mn(p, 1, 0, 1, 0, 1, 1, 0) + (1) * mn(p, 0, 2, 0, 0, 1, 1, 0)))) + (((-6) * mn(p, 0, 1, 1, 1, 0, 1, 0) + (1) * mn(p, 0, 1, 1, 0, 2, 0, 0)) + ((3) * mn(p, 0, 1, 1, 0, 0, 2, 1) + ((-3) * mn(p, 0, 0, 2, 1, 1, 0, 0) + (3) * mn(p, 0, 0, 2, 0, 1, 1, 1))))));
    assert(q == ((((3) * mn(p, 2, 0, 0, 1, 1, 0, 0) + (3) * mn(p, 1, 1, 0, 2, 0, 0, 0)) + ((-3) * mn(p, 1, 1, 0, 0, 0, 2, 0) + ((-6) * mn(p, 1, 0, 1, 0, 1, 1, 0) + (1) * mn(p, 0, 2, 0, 0, 1, 1, 0)))) + (((-6) * mn(p, 0, 1, 1, 1, 0, 1, 0) + (1) * mn(p, 0, 1, 1, 0, 2, 0, 0)) + ((3) * mn(p, 0, 1, 1, 0, 0, 2, 1) + ((-3) * mn(p, 0, 0, 2, 1, 1, 0, 0) + (3) * mn(p, 0, 0, 2, 0, 1, 1, 1))))));
}

#[verifier::rlimit(100)]
proof fn acb_prod18(p: Pt)
    ensures
        (((((((9) * mn(p, 4, 0, 0, 2, 2, 0, 0) + ((18) * mn(p, 3, 1, 0, 3, 1, 0, 0) + (-18) * mn(p, 3, 1, 0, 1, 1, 2, 0))) + ((-36) * mn(p, 3, 0, 1, 1, 2, 1, 0) + ((9) * mn(p, 2, 2, 0, 4, 0, 0, 0) + (-18) * mn(p, 2, 2, 0, 2, 0, 2, 0)))) + (((6) * mn(p, 2, 2, 0, 1, 2, 1, 0) + ((9) * mn(p, 2, 2, 0, 0, 0, 4, 0) + (-72) * mn(p, 2, 1, 1, 2, 1, 1, 0))) + ((6) * mn(p, 2, 1, 1, 1, 3, 0, 0) + ((18) * mn(p, 2, 1, 1, 1, 1, 2, 1) + (36) * mn(p, 2, 1, 1, 0, 1, 3, 0))))) + ((((-18) * mn(p, 2, 0, 2, 2, 2, 0, 0) + ((18) * mn(p, 2, 0, 2, 1, 2, 1, 1) + (36) * mn(p, 2, 0, 2, 0, 2, 2, 0))) + ((6) * mn(p, 1, 3, 0, 2, 1, 1, 0) + ((-6) * mn(p, 1, 3, 0, 0, 1, 3, 0) + (-36) * mn(p, 1, 2, 1, 3, 0, 1, 0)))) + (((6) * mn(p, 1, 2, 1, 2, 2, 0, 0) + ((18) * mn(p, 1, 2, 1, 2, 0, 2, 1) + (36) * mn(p, 1, 2, 1, 1, 0, 3, 0))) + ((-18) * mn(p, 1, 2, 1, 0, 2, 2, 0) + ((-18) * mn(p, 1, 2, 1, 0, 0, 4, 1) + (-18) * mn(p, 1, 1, 2, 3, 1, 0, 0)))))) + (((((18) * mn(p, 1, 1, 2, 2, 1, 1, 1) + ((90) * mn(p, 1, 1, 2, 1, 1, 2, 0) + (-12) * mn(p, 1, 1, 2, 0, 3, 1, 0))) + ((-54) * mn(p, 1, 1, 2, 0, 1, 3, 1) + ((36) * mn(p, 1, 0, 3, 1, 2, 1, 0) + (-36) * mn(p, 1, 0, 3, 0, 2, 2, 1)))) + (((1) * mn(p, 0, 4, 0, 0, 2, 2, 0) + ((-12) * mn(p, 0, 3, 1, 1, 1, 2, 0) + (2) * mn(p, 0, 3, 1, 0, 3, 1, 0))) + ((6) * mn(p, 0, 3, 1, 0, 1, 3, 1) + ((36) * mn(p, 0, 2, 2, 2, 0, 2, 0) + (-18) * mn(p, 0, 2, 2, 1, 2, 1, 0))))) + ((((-36) * mn(p, 0, 2, 2, 1, 0, 3, 1) + ((1) * mn(p, 0, 2, 2, 0, 4, 0, 0) + (12) * mn(p, 0, 2, 2, 0, 2, 2, 1))) + ((9) * mn(p, 0, 2, 2, 0, 0, 4, 2) + ((36) * mn(p, 0, 1, 3, 2, 1, 1, 0) + (-6) * mn(p, 0, 1, 3, 1, 3, 0, 0)))) + (((-54) * mn(p, 0, 1, 3, 1, 1, 2, 1) + ((6) * mn(p, 0, 1, 3, 0, 3, 1, 1) + (18) * mn(p, 0, 1, 3, 0, 1, 3, 2))) + ((9) * mn(p, 0, 0, 4, 2, 2, 0, 0) + ((-18) * mn(p, 0, 0, 4, 1, 2, 1, 1) + (9) * mn(p, 0, 0, 4, 0, 2, 2, 2)))))))) * (((((3) * mn(p, 2, 0, 0, 1, 1, 0, 0) + (3) * mn(p, 1, 1, 0, 2, 0, 0, 0)) + ((-3) * mn(p, 1, 1, 0, 0, 0, 2, 0) + ((-6) * mn(p, 1, 0, 1, 0, 1, 1, 0) + (1) * mn(p, 0, 2, 0, 0, 1, 1, 0)))) + (((-6) * mn(p, 0, 1, 1, 1, 0, 1, 0) + (1) * mn(p, 0, 1, 1, 0, 2, 0, 0)) + ((3) * mn(p, 0, 1, 1, 0, 0, 2, 1) + ((-3) * mn(p, 0, 0, 2, 1, 1, 0, 0) + (3) * mn(p, 0, 0, 2, 0, 1, 1, 1)))))) == ((((((((27) * mn(p, 6, 0, 0, 3, 3, 0, 0) + (81) * mn(p, 5, 1, 0, 4, 2, 0, 0)) + ((-81) * mn(p, 5, 1, 0, 2, 2, 2, 0) + (-162) * mn(p, 5, 0, 1, 2, 3, 1, 0))) + (((81) * mn(p, 4, 2, 0, 5, 1, 0, 0) + (-162) * mn(p, 4, 2, 0, 3, 1, 2, 0)) + ((27) * mn(p, 4, 2, 0, 2, 3, 1, 0) + ((81) * mn(p, 4, 2, 0, 1, 1, 4, 0) + (-486) * mn(p, 4, 1, 1, 3, 2, 1, 0))))) + ((((27) * mn(p, 4, 1, 1, 2, 4, 0, 0) + (81) * mn(p, 4, 1, 1, 2, 2, 2, 1)) + ((324) * mn(p, 4, 1, 1, 1, 2, 3, 0) + ((-81) * mn(p, 4, 0, 2, 3, 3, 0, 0) + (81) * mn(p, 4, 0, 2, 2, 3, 1, 1)))) + (((324) * mn(p, 4, 0, 2, 1, 3, 2, 0) + (27) * mn(p, 3, 3, 0, 6, 0, 0, 0)) + ((-81) * mn(p, 3, 3, 0, 4, 0, 2, 0) + ((54) * mn(p, 3, 3, 0, 3, 2, 1, 0) + (81) * mn(p, 3, 3, 0, 2, 0, 4, 0)))))) + (((((-54) * mn(p, 3, 3, 0, 1, 2, 3, 0) + (-27) * mn(p, 3, 3, 0, 0, 0, 6, 0)) + ((-486) * mn(p, 3, 2, 1, 4, 1, 1, 0) + ((54) * mn(p, 3, 2, 1, 3, 3, 0, 0) + (162) * mn(p, 3, 2, 1, 3, 1, 2, 1)))) + (((648) * mn(p, 3, 2, 1, 2, 1, 3, 0) + (-162) * mn(p, 3, 2, 1, 1, 3, 2, 0)) + ((-162) * mn(p, 3, 2, 1, 1, 1, 4, 1) + ((-162) * mn(p, 3, 2, 1, 0, 1, 5, 0) + (-162) * mn(p, 3, 1, 2, 4, 2, 0, 0))))) + ((((162) * mn(p, 3, 1, 2, 3, 2, 1, 1) + (1134) * mn(p, 3, 1, 2, 2, 2, 2, 0)) + ((-108) * mn(p, 3, 1, 2, 1, 4, 1, 0) + ((-486) * mn(p, 3, 1, 2, 1, 2, 3, 1) + (-324) * mn(p, 3, 1, 2, 0, 2, 4, 0)))) + (((324) * mn(p, 3, 0, 3, 2, 3, 1, 0) + (-324) * mn(p, 3, 0, 3, 1, 3, 2, 1)) + ((-216) * mn(p, 3, 0, 3, 0, 3, 3, 0) + ((27) * mn(p, 2, 4, 0, 4, 1, 1, 0) + (-54) * mn(p, 2, 4, 0, 2, 1, 3, 0))))))) + ((((((9) * mn(p, 2, 4, 0, 1, 3, 2, 0) + (27) * mn(p, 2, 4, 0, 0, 1, 5, 0)) + ((-162) * mn(p, 2, 3, 1, 5, 0, 1, 0) + ((27) * mn(p, 2, 3, 1, 4, 2, 0, 0) + (81) * mn(p, 2, 3, 1, 4, 0, 2, 1)))) + (((324) * mn(p, 2, 3, 1, 3, 0, 3, 0) + (-270) * mn(p, 2, 3, 1, 2, 2, 2, 0)) + ((-162) * mn(p, 2, 3, 1, 2, 0, 4, 1) + ((18) * mn(p, 2, 3, 1, 1, 4, 1, 0) + (54) * mn(p, 2, 3, 1, 1, 2, 3, 1))))) + ((((-162) * mn(p, 2, 3, 1, 1, 0, 5, 0) + (135) * mn(p, 2, 3, 1, 0, 2, 4, 0)) + ((81) * mn(p, 2, 3, 1, 0, 0, 6, 1) + ((-81) * mn(p, 2, 2, 2, 5, 1, 0, 0) + (81) * mn(p, 2, 2, 2, 4, 1, 1, 1)))) + (((1134) * mn(p, 2, 2, 2, 3, 1, 2, 0) + (-270) * mn(p, 2, 2, 2, 2, 3, 1, 0)) + ((-810) * mn(p, 2, 2, 2, 2, 1, 3, 1) + ((9) * mn(p, 2, 2, 2, 1, 5, 0, 0) + (108) * mn(p, 2, 2, 2, 1, 3, 2, 1)))))) + (((((81) * mn(p, 2, 2, 2, 1, 1, 4, 2) + (-729) * mn(p, 2, 2, 2, 1, 1, 4, 0)) + ((216) * mn(p, 2, 2, 2, 0, 3, 3, 0) + ((405) * mn(p, 2, 2, 2, 0, 1, 5, 1) + (648) * mn(p, 2, 1, 3, 3, 2, 1, 0)))) + (((-54) * mn(p, 2, 1, 3, 2, 4, 0, 0) + (-810) * mn(p, 2, 1, 3, 2, 2, 2, 1)) + ((54) * mn(p, 2, 1, 3, 1, 4, 1, 1) + ((162) * mn(p, 2, 1, 3, 1, 2, 3, 2) + (-972) * mn(p, 2, 1, 3, 1, 2, 3, 0))))) + ((((108) * mn(p, 2, 1, 3, 0, 4, 2, 0) + (648) * mn(p, 2, 1, 3, 0, 2, 4, 1)) + ((81) * mn(p, 2, 0, 4, 3, 3, 0, 0) + ((-162) * mn(p, 2, 0, 4, 2, 3, 1, 1) + (81) * mn(p, 2, 0, 4, 1, 3, 2, 2)))) + (((-324) * mn(p, 2, 0, 4, 1, 3, 2, 0) + (324) * mn(p, 2, 0, 4, 0, 3, 3, 1)) + ((9) * mn(p, 1, 5, 0, 2, 2, 2, 0) + ((-9) * mn(p, 1, 5, 0, 0, 2, 4, 0) + (-108) * mn(p, 1, 4, 1, 3, 1, 2, 0)))))))) + (((((((18) * mn(p, 1, 4, 1, 2, 3, 1, 0) + (54) * mn(p, 1, 4, 1, 2, 1, 3, 1)) + ((108) * mn(p, 1, 4, 1, 1, 1, 4, 0) + (-36) * mn(p, 1, 4, 1, 0, 3, 3, 0))) + (((-54) * mn(p, 1, 4, 1, 0, 1, 5, 1) + (324) * mn(p, 1, 3, 2, 4, 0, 2, 0)) + ((-162) * mn(p, 1, 3, 2, 3, 2, 1, 0) + ((-324) * mn(p, 1, 3, 2, 3, 0, 3, 1) + (9) * mn(p, 1, 3, 2, 2, 4, 0, 0))))) + ((((108) * mn(p, 1, 3, 2, 2, 2, 2, 1) + (81) * mn(p, 1, 3, 2, 2, 0, 4, 2)) + ((-324) * mn(p, 1, 3, 2, 2, 0, 4, 0) + ((378) * mn(p, 1, 3, 2, 1, 2, 3, 0) + (324) * mn(p, 1, 3, 2, 1, 0, 5, 1)))) + (((-45) * mn(p, 1, 3, 2, 0, 4, 2, 0) + (-216) * mn(p, 1, 3, 2, 0, 2, 4, 1)) + ((-81) * mn(p, 1, 3, 2, 0, 0, 6, 2) + ((324) * mn(p, 1, 2, 3, 4, 1, 1, 0) + (-54) * mn(p, 1, 2, 3, 3, 3, 0, 0)))))) + (((((-486) * mn(p, 1, 2, 3, 3, 1, 2, 1) + (54) * mn(p, 1, 2, 3, 2, 3, 1, 1)) + ((162) * mn(p, 1, 2, 3, 2, 1, 3, 2) + ((-972) * mn(p, 1, 2, 3, 2, 1, 3, 0) + (378) * mn(p, 1, 2, 3, 1, 3, 2, 0)))) + (((1134) * mn(p, 1, 2, 3, 1, 1, 4, 1) + (-18) * mn(p, 1, 2, 3, 0, 5, 1, 0)) + ((-270) * mn(p, 1, 2, 3, 0, 3, 3, 1) + ((-324) * mn(p, 1, 2, 3, 0, 1, 5, 2) + (81) * mn(p, 1, 1, 4, 4, 2, 0, 0))))) + ((((-162) * mn(p, 1, 1, 4, 3, 2, 1, 1) + (81) * mn(p, 1, 1, 4, 2, 2, 2, 2)) + ((-729) * mn(p, 1, 1, 4, 2, 2, 2, 0) + ((108) * mn(p, 1, 1, 4, 1, 4, 1, 0) + (1134) * mn(p, 1, 1, 4, 1, 2, 3, 1)))) + (((-108) * mn(p, 1, 1, 4, 0, 4, 2, 1) + (-405) * mn(p, 1, 1, 4, 0, 2, 4, 2)) + ((-162) * mn(p, 1, 0, 5, 2, 3, 1, 0) + ((324) * mn(p, 1, 0, 5, 1, 3, 2, 1) + (-162) * mn(p, 1, 0, 5, 0, 3, 3, 2))))))) + ((((((1) * mn(p, 0, 6, 0, 0, 3, 3, 0) + (-18) * mn(p, 0, 5, 1, 1, 2, 3, 0)) + ((3) * mn(p, 0, 5, 1, 0, 4, 2, 0) + ((9) * mn(p, 0, 5, 1, 0, 2, 4, 1) + (108) * mn(p, 0, 4, 2, 2, 1, 3, 0)))) + (((-45) * mn(p, 0, 4, 2, 1, 3, 2, 0) + (-108) * mn(p, 0, 4, 2, 1, 1, 4, 1)) + ((3) * mn(p, 0, 4, 2, 0, 5, 1, 0) + ((27) * mn(p, 0, 4, 2, 0, 3, 3, 1) + (27) * mn(p, 0, 4, 2, 0, 1, 5, 2))))) + ((((-216) * mn(p, 0, 3, 3, 3, 0, 3, 0) + (216) * mn(p, 0, 3, 3, 2, 2, 2, 0)) + ((324) * mn(p, 0, 3, 3, 2, 0, 4, 1) + ((-36) * mn(p, 0, 3, 3, 1, 4, 1, 0) + (-270) * mn(p, 0, 3, 3, 1, 2, 3, 1)))) + (((-162) * mn(p, 0, 3, 3, 1, 0, 5, 2) + (1) * mn(p, 0, 3, 3, 0, 6, 0, 0)) + ((27) * mn(p, 0, 3, 3, 0, 4, 2, 1) + ((81) * mn(p, 0, 3, 3, 0, 2, 4, 2) + (27) * mn(p, 0, 3, 3, 0, 0, 6, 3)))))) + (((((-324) * mn(p, 0, 2, 4, 3, 1, 2, 0) + (135) * mn(p, 0, 2, 4, 2, 3, 1, 0)) + ((648) * mn(p, 0, 2, 4, 2, 1, 3, 1) + ((-9) * mn(p, 0, 2, 4, 1, 5, 0, 0) + (-216) * mn(p, 0, 2, 4, 1, 3, 2, 1)))) + (((-405) * mn(p, 0, 2, 4, 1, 1, 4, 2) + (9) * mn(p, 0, 2, 4, 0, 5, 1, 1)) + ((81) * mn(p, 0, 2, 4, 0, 3, 3, 2) + ((81) * mn(p, 0, 2, 4, 0, 1, 5, 3) + (-162) * mn(p, 0, 1, 5, 3, 2, 1, 0))))) + ((((27) * mn(p, 0, 1, 5, 2, 4, 0, 0) + (405) * mn(p, 0, 1, 5, 2, 2, 2, 1)) + ((-54) * mn(p, 0, 1, 5, 1, 4, 1, 1) + ((-324) * mn(p, 0, 1, 5, 1, 2, 3, 2) + (27) * mn(p, 0, 1, 5, 0, 4, 2, 2)))) + (((81) * mn(p, 0, 1, 5, 0, 2, 4, 3) + (-27) * mn(p, 0, 0, 6, 3, 3, 0, 0)) + ((81) * mn(p, 0, 0, 6, 2, 3, 1, 1) + ((-81) * mn(p, 0, 0, 6, 1, 3, 2, 2) + (27) * mn(p, 0, 0, 6, 0, 3, 3, 3))))))))),
{
    let c0 = ((((((9) * mn(p, 4, 0, 0, 2, 2, 0, 0) + (18) * mn(p, 3, 1, 0, 3, 1, 0, 0)) + ((-18) * mn(p, 3, 1, 0, 1, 1, 2, 0) + (-36) * mn(p, 3, 0, 1, 1, 2, 1, 0))) + (((9) * mn(p, 2, 2, 0, 4, 0, 0, 0) + (-18) * mn(p, 2, 2, 0, 2, 0, 2, 0)) + ((6) * mn(p, 2, 2, 0, 1, 2, 1, 0) + (9) * mn(p, 2, 2, 0, 0, 0, 4, 0)))) + ((((-72) * mn(p, 2, 1, 1, 2, 1, 1, 0) + (6) * mn(p, 2, 1, 1, 1, 3, 0, 0)) + ((18) * mn(p, 2, 1, 1, 1, 1, 2, 1) + (36) * mn(p, 2, 1, 1, 0, 1, 3, 0))) + (((-18) * mn(p, 2, 0, 2, 2, 2, 0, 0) + (18) * mn(p, 2, 0, 2, 1, 2, 1, 1)) + ((36) * mn(p, 2, 0, 2, 0, 2, 2, 0) + (6) * mn(p, 1, 3, 0, 2, 1, 1, 0))))) + (((((-6) * mn(p, 1, 3, 0, 0, 1, 3, 0) + (-36) * mn(p, 1, 2, 1, 3, 0, 1, 0)) + ((6) * mn(p, 1, 2, 1, 2, 2, 0, 0) + (18) * mn(p, 1, 2, 1, 2, 0, 2, 1))) + (((36) * mn(p, 1, 2, 1, 1, 0, 3, 0) + (-18) * mn(p, 1, 2, 1, 0, 2, 2, 0)) + ((-18) * mn(p, 1, 2, 1, 0, 0, 4, 1) + (-18) * mn(p, 1, 1, 2, 3, 1, 0, 0)))) + ((((18) * mn(p, 1, 1, 2, 2, 1, 1, 1) + (90) * mn(p, 1, 1, 2, 1, 1, 2, 0)) + ((-12) * mn(p, 1, 1, 2, 0, 3, 1, 0) + (-54) * mn(p, 1, 1, 2, 0, 1, 3, 1))) + (((36) * mn(p, 1, 0, 3, 1, 2, 1, 0) + (-36) * mn(p, 1, 0, 3, 0, 2, 2, 1)) + ((1) * mn(p, 0, 4, 0, 0, 2, 2, 0) + (-12) * mn(p, 0, 3, 1, 1, 1, 2, 0))))));
    let c1 = (((((2) * mn(p, 0, 3, 1, 0, 3, 1, 0) + (6) * mn(p, 0, 3, 1, 0, 1, 3, 1)) + ((36) * mn(p, 0, 2, 2, 2, 0, 2, 0) + (-18) * mn(p, 0, 2, 2, 1, 2, 1, 0))) + (((-36) * mn(p, 0, 2, 2, 1, 0, 3, 1) + (1) * mn(p, 0, 2, 2, 0, 4, 0, 0)) + ((12) * mn(p, 0, 2, 2, 0, 2, 2, 1) + (9) * mn(p, 0, 2, 2, 0, 0, 4, 2)))) + ((((36) * mn(p, 0, 1, 3, 2, 1, 1, 0) + (-6) * mn(p, 0, 1, 3, 1, 3, 0, 0)) + ((-54) * mn(p, 0, 1, 3, 1, 1, 2, 1) + (6) * mn(p, 0, 1, 3, 0, 3, 1, 1))) + (((18) * mn(p, 0, 1, 3, 0, 1, 3, 2) + (9) * mn(p, 0, 0, 4, 2, 2, 0, 0)) + ((-18) * mn(p, 0, 0, 4, 1, 2, 1, 1) + (9) * mn(p, 0, 0, 4, 0, 2, 2, 2)))));
    let cc0 = c0;
    let cc1 = cc0 + c1;
    assert(cc1 == ((((((9) * mn(p, 4, 0, 0, 2, 2, 0, 0) + ((18) * mn(p, 3, 1, 0, 3, 1, 0, 0) + (-18) * mn(p, 3, 1, 0, 1, 1, 2, 0))) + ((-36) * mn(p, 3, 0, 1, 1, 2, 1, 0) + ((9) * mn(p, 2, 2, 0, 4, 0, 0, 0) + (-18) * mn(p, 2, 2, 0, 2, 0, 2, 0)))) + (((6) * mn(p, 2, 2, 0, 1, 2, 1, 0) + ((9) * mn(p, 2, 2, 0, 0, 0, 4, 0) + (-72) * mn(p, 2, 1, 1, 2, 1, 1, 0))) + ((6) * mn(p, 2, 1, 1, 1, 3, 0, 0) + ((18) * mn(p, 2, 1, 1, 1, 1, 2, 1) + (36) * mn(p, 2, 1, 1, 0, 1, 3, 0))))) + ((((-18) * mn(p, 2, 0, 2, 2, 2, 0, 0) + ((18) * mn(p, 2, 0, 2, 1, 2, 1, 1) + (36) * mn(p, 2, 0, 2, 0, 2, 2, 0))) + ((6) * mn(p, 1, 3, 0, 2, 1, 1, 0) + ((-6) * mn(p, 1, 3, 0, 0, 1, 3, 0) + (-36) * mn(p, 1, 2, 1, 3, 0, 1, 0)))) + (((6) * mn(p, 1, 2, 1, 2, 2, 0, 0) + ((18) * mn(p, 1, 2, 1, 2, 0, 2, 1) + (36) * mn(p, 1, 2, 1, 1, 0, 3, 0))) + ((-18) * mn(p, 1, 2, 1, 0, 2, 2, 0) + ((-18) * mn(p, 1, 2, 1, 0, 0, 4, 1) + (-18) * mn(p, 1, 1, 2, 3, 1, 0, 0)))))) + (((((18) * mn(p, 1, 1, 2, 2, 1, 1, 1) + ((90) * mn(p, 1, 1, 2, 1, 1, 2, 0) + (-12) * mn(p, 1, 1, 2, 0, 3, 1, 0))) + ((-54) * mn(p, 1, 1, 2, 0, 1, 3, 1) + ((36) * mn(p, 1, 0, 3, 1, 2, 1, 0) + (-36) * mn(p, 1, 0, 3, 0, 2, 2, 1)))) + (((1) * mn(p, 0, 4, 0, 0, 2, 2, 0) + ((-12) * mn(p, 0, 3, 1, 1, 1, 2, 0) + (2) * mn(p, 0, 3, 1, 0, 3, 1, 0))) + ((6) * mn(p, 0, 3, 1, 0, 1, 3, 1) + ((36) * mn(p, 0, 2, 2, 2, 0, 2, 0) + (-18) * mn(p, 0, 2, 2, 1, 2, 1, 0))))) + ((((-36) * mn(p, 0, 2, 2, 1, 0, 3, 1) + ((1) * mn(p, 0, 2, 2, 0, 4, 0, 0) + (12) * mn(p, 0, 2, 2, 0, 2, 2, 1))) + ((9) * mn(p, 0, 2, 2, 0, 0, 4, 2) + ((36) * mn(p, 0, 1, 3, 2, 1, 1, 0) + (-6) * mn(p, 0, 1, 3, 1, 3, 0, 0)))) + (((-54) * mn(p, 0, 1, 3, 1, 1, 2, 1) + ((6) * mn(p, 0, 1, 3, 0, 3, 1, 1) + (18) * mn(p, 0, 1, 3, 0, 1, 3, 2))) + ((9) * mn(p, 0, 0, 4, 2, 2, 0, 0) + ((-18) * mn(p, 0, 0, 4, 1, 2, 1, 1) + (9) * mn(p, 0, 0, 4, 0, 2, 2, 2))))))));
    let q = ((((3) * mn(p, 2, 0, 0, 1, 1, 0, 0) + (3) * mn(p, 1, 1, 0, 2, 0, 0, 0)) + ((-3) * mn(p, 1, 1, 0, 0, 0, 2, 0) + ((-6) * mn(p, 1, 0, 1, 0, 1, 1, 0) + (1) * mn(p, 0, 2, 0, 0, 1, 1, 0)))) + (((-6) * mn(p, 0, 1, 1, 1, 0, 1, 0) + (1) * mn(p, 0, 1, 1, 0, 2, 0, 0)) + ((3) * mn(p, 0, 1, 1, 0, 0, 2, 1) + ((-3) * mn(p, 0, 0, 2, 1, 1, 0, 0) + (3) * mn(p, 0, 0, 2, 0, 1, 1, 1)))));
    lemma_mul_is_distributive_add_other_way(q, cc0, c1);
    acb_prod18_c0(p);
    assert(c0 * q == ((((((((27) * mn(p, 6, 0, 0, 3, 3, 0, 0) + (81) * mn(p, 5, 1, 0, 4, 2, 0, 0)) + ((-81) * mn(p, 5, 1, 0, 2, 2, 2, 0) + (-162) * mn(p, 5, 0, 1, 2, 3, 1, 0))) + (((81) * mn(p, 4, 2, 0, 5, 1, 0, 0) + (-162) * mn(p, 4, 2, 0, 3, 1, 2, 0)) + ((27) * mn(p, 4, 2, 0, 2, 3, 1, 0) + (81) * mn(p, 4, 2, 0, 1, 1, 4, 0)))) + ((((-486) * mn(p, 4, 1, 1, 3, 2, 1, 0) + (27) * mn(p, 4, 1, 1, 2, 4, 0, 0)) + ((81) * mn(p, 4, 1, 1, 2, 2, 2, 1) + (324) * mn(p, 4, 1, 1, 1, 2, 3, 0))) + (((-81) * mn(p, 4, 0, 2, 3, 3, 0, 0) + (81) * mn(p, 4, 0, 2, 2, 3, 1, 1)) + ((324) * mn(p, 4, 0, 2, 1, 3, 2, 0) + (27) * mn(p, 3, 3, 0, 6, 0, 0, 0))))) + (((((-81) * mn(p, 3, 3, 0, 4, 0, 2, 0) + (54) * mn(p, 3, 3, 0, 3, 2, 1, 0)) + ((81) * mn(p, 3, 3, 0, 2, 0, 4, 0) + (-54) * mn(p, 3, 3, 0, 1, 2, 3, 0))) + (((-27) * mn(p, 3, 3, 0, 0, 0, 6, 0) + (-486) * mn(p, 3, 2, 1, 4, 1, 1, 0)) + ((54) * mn(p, 3, 2, 1, 3, 3, 0, 0) + (162) * mn(p, 3, 2, 1, 3, 1, 2, 1)))) + ((((648) * mn(p, 3, 2, 1, 2, 1, 3, 0) + (-162) * mn(p, 3, 2, 1, 1, 3, 2, 0)) + ((-162) * mn(p, 3, 2, 1, 1, 1, 4, 1) + (-162) * mn(p, 3, 2, 1, 0, 1, 5, 0))) + (((-162) * mn(p, 3, 1, 2, 4, 2, 0, 0) + (162) * mn(p, 3, 1, 2, 3, 2, 1, 1)) + ((1134) * mn(p, 3, 1, 2, 2, 2, 2, 0) + (-108) * mn(p, 3, 1, 2, 1, 4, 1, 0)))))) + ((((((-486) * mn(p, 3, 1, 2, 1, 2, 3, 1) + (-324) * mn(p, 3, 1, 2, 0, 2, 4, 0)) + ((324) * mn(p, 3, 0, 3, 2, 3, 1, 0) + (-324) * mn(p, 3, 0, 3, 1, 3, 2, 1))) + (((-216) * mn(p, 3, 0, 3, 0, 3, 3, 0) + (27) * mn(p, 2, 4, 0, 4, 1, 1, 0)) + ((-54) * mn(p, 2, 4, 0, 2, 1, 3, 0) + (9) * mn(p, 2, 4, 0, 1, 3, 2, 0)))) + ((((27) * mn(p, 2, 4, 0, 0, 1, 5, 0) + (-162) * mn(p, 2, 3, 1, 5, 0, 1, 0)) + ((27) * mn(p, 2, 3, 1, 4, 2, 0, 0) + (81) * mn(p, 2, 3, 1, 4, 0, 2, 1))) + (((324) * mn(p, 2, 3, 1, 3, 0, 3, 0) + (-270) * mn(p, 2, 3, 1, 2, 2, 2, 0)) + ((-162) * mn(p, 2, 3, 1, 2, 0, 4, 1) + (12) * mn(p, 2, 3, 1, 1, 4, 1, 0))))) + (((((36) * mn(p, 2, 3, 1, 1, 2, 3, 1) + (-162) * mn(p, 2, 3, 1, 1, 0, 5, 0)) + ((135) * mn(p, 2, 3, 1, 0, 2, 4, 0) + (81) * mn(p, 2, 3, 1, 0, 0, 6, 1))) + (((-81) * mn(p, 2, 2, 2, 5, 1, 0, 0) + (81) * mn(p, 2, 2, 2, 4, 1, 1, 1)) + ((1026) * mn(p, 2, 2, 2, 3, 1, 2, 0) + (-216) * mn(p, 2, 2, 2, 2, 3, 1, 0)))) + ((((-702) * mn(p, 2, 2, 2, 2, 1, 3, 1) + (6) * mn(p, 2, 2, 2, 1, 5, 0, 0)) + ((72) * mn(p, 2, 2, 2, 1, 3, 2, 1) + (54) * mn(p, 2, 2, 2, 1, 1, 4, 2))) + (((-729) * mn(p, 2, 2, 2, 1, 1, 4, 0) + (216) * mn(p, 2, 2, 2, 0, 3, 3, 0)) + ((405) * mn(p, 2, 2, 2, 0, 1, 5, 1) + (540) * mn(p, 2, 1, 3, 3, 2, 1, 0))))))) + (((((((-36) * mn(p, 2, 1, 3, 2, 4, 0, 0) + (-648) * mn(p, 2, 1, 3, 2, 2, 2, 1)) + ((36) * mn(p, 2, 1, 3, 1, 4, 1, 1) + (108) * mn(p, 2, 1, 3, 1, 2, 3, 2))) + (((-972) * mn(p, 2, 1, 3, 1, 2, 3, 0) + (108) * mn(p, 2, 1, 3, 0, 4, 2, 0)) + ((648) * mn(p, 2, 1, 3, 0, 2, 4, 1) + (54) * mn(p, 2, 0, 4, 3, 3, 0, 0)))) + ((((-108) * mn(p, 2, 0, 4, 2, 3, 1, 1) + (54) * mn(p, 2, 0, 4, 1, 3, 2, 2)) + ((-324) * mn(p, 2, 0, 4, 1, 3, 2, 0) + (324) * mn(p, 2, 0, 4, 0, 3, 3, 1))) + (((9) * mn(p, 1, 5, 0, 2, 2, 2, 0) + (-9) * mn(p, 1, 5, 0, 0, 2, 4, 0)) + ((-108) * mn(p, 1, 4, 1, 3, 1, 2, 0) + (12) * mn(p, 1, 4, 1, 2, 3, 1, 0))))) + (((((36) * mn(p, 1, 4, 1, 2, 1, 3, 1) + (108) * mn(p, 1, 4, 1, 1, 1, 4, 0)) + ((-30) * mn(p, 1, 4, 1, 0, 3, 3, 0) + (-36) * mn(p, 1, 4, 1, 0, 1, 5, 1))) + (((216) * mn(p, 1, 3, 2, 4, 0, 2, 0) + (-108) * mn(p, 1, 3, 2, 3, 2, 1, 0)) + ((-216) * mn(p, 1, 3, 2, 3, 0, 3, 1) + (6) * mn(p, 1, 3, 2, 2, 4, 0, 0)))) + ((((72) * mn(p, 1, 3, 2, 2, 2, 2, 1) + (54) * mn(p, 1, 3, 2, 2, 0, 4, 2)) + ((-216) * mn(p, 1, 3, 2, 2, 0, 4, 0) + (324) * mn(p, 1, 3, 2, 1, 2, 3, 0))) + (((216) * mn(p, 1, 3, 2, 1, 0, 5, 1) + (-30) * mn(p, 1, 3, 2, 0, 4, 2, 0)) + ((-144) * mn(p, 1, 3, 2, 0, 2, 4, 1) + (-54) * mn(p, 1, 3, 2, 0, 0, 6, 2)))))) + ((((((216) * mn(p, 1, 2, 3, 4, 1, 1, 0) + (-36) * mn(p, 1, 2, 3, 3, 3, 0, 0)) + ((-324) * mn(p, 1, 2, 3, 3, 1, 2, 1) + (36) * mn(p, 1, 2, 3, 2, 3, 1, 1))) + (((108) * mn(p, 1, 2, 3, 2, 1, 3, 2) + (-648) * mn(p, 1, 2, 3, 2, 1, 3, 0)) + ((252) * mn(p, 1, 2, 3, 1, 3, 2, 0) + (756) * mn(p, 1, 2, 3, 1, 1, 4, 1)))) + ((((-12) * mn(p, 1, 2, 3, 0, 5, 1, 0) + (-180) * mn(p, 1, 2, 3, 0, 3, 3, 1)) + ((-216) * mn(p, 1, 2, 3, 0, 1, 5, 2) + (54) * mn(p, 1, 1, 4, 4, 2, 0, 0))) + (((-108) * mn(p, 1, 1, 4, 3, 2, 1, 1) + (54) * mn(p, 1, 1, 4, 2, 2, 2, 2)) + ((-486) * mn(p, 1, 1, 4, 2, 2, 2, 0) + (72) * mn(p, 1, 1, 4, 1, 4, 1, 0))))) + (((((756) * mn(p, 1, 1, 4, 1, 2, 3, 1) + (-72) * mn(p, 1, 1, 4, 0, 4, 2, 1)) + ((-270) * mn(p, 1, 1, 4, 0, 2, 4, 2) + (-108) * mn(p, 1, 0, 5, 2, 3, 1, 0))) + (((216) * mn(p, 1, 0, 5, 1, 3, 2, 1) + (-108) * mn(p, 1, 0, 5, 0, 3, 3, 2)) + ((1) * mn(p, 0, 6, 0, 0, 3, 3, 0) + (-18) * mn(p, 0, 5, 1, 1, 2, 3, 0)))) + ((((1) * mn(p, 0, 5, 1, 0, 4, 2, 0) + (3) * mn(p, 0, 5, 1, 0, 2, 4, 1)) + ((72) * mn(p, 0, 4, 2, 2, 1, 3, 0) + (-15) * mn(p, 0, 4, 2, 1, 3, 2, 0))) + (((-36) * mn(p, 0, 4, 2, 1, 1, 4, 1) + (3) * mn(p, 0, 4, 2, 0, 3, 3, 1)) + ((36) * mn(p, 0, 3, 3, 2, 2, 2, 0) + (-36) * mn(p, 0, 3, 3, 1, 2, 3, 1)))))))));
    acb_prod18_c1(p);
    assert(c1 * q == (((((((6) * mn(p, 2, 3, 1, 1, 4, 1, 0) + (18) * mn(p, 2, 3, 1, 1, 2, 3, 1)) + ((108) * mn(p, 2, 2, 2, 3, 1, 2, 0) + ((-54) * mn(p, 2, 2, 2, 2, 3, 1, 0) + (-108) * mn(p, 2, 2, 2, 2, 1, 3, 1)))) + (((3) * mn(p, 2, 2, 2, 1, 5, 0, 0) + ((36) * mn(p, 2, 2, 2, 1, 3, 2, 1) + (27) * mn(p, 2, 2, 2, 1, 1, 4, 2))) + ((108) * mn(p, 2, 1, 3, 3, 2, 1, 0) + ((-18) * mn(p, 2, 1, 3, 2, 4, 0, 0) + (-162) * mn(p, 2, 1, 3, 2, 2, 2, 1))))) + ((((18) * mn(p, 2, 1, 3, 1, 4, 1, 1) + ((54) * mn(p, 2, 1, 3, 1, 2, 3, 2) + (27) * mn(p, 2, 0, 4, 3, 3, 0, 0))) + ((-54) * mn(p, 2, 0, 4, 2, 3, 1, 1) + ((27) * mn(p, 2, 0, 4, 1, 3, 2, 2) + (6) * mn(p, 1, 4, 1, 2, 3, 1, 0)))) + (((18) * mn(p, 1, 4, 1, 2, 1, 3, 1) + ((-6) * mn(p, 1, 4, 1, 0, 3, 3, 0) + (-18) * mn(p, 1, 4, 1, 0, 1, 5, 1))) + ((108) * mn(p, 1, 3, 2, 4, 0, 2, 0) + ((-54) * mn(p, 1, 3, 2, 3, 2, 1, 0) + (-108) * mn(p, 1, 3, 2, 3, 0, 3, 1)))))) + (((((3) * mn(p, 1, 3, 2, 2, 4, 0, 0) + (36) * mn(p, 1, 3, 2, 2, 2, 2, 1)) + ((27) * mn(p, 1, 3, 2, 2, 0, 4, 2) + ((-108) * mn(p, 1, 3, 2, 2, 0, 4, 0) + (54) * mn(p, 1, 3, 2, 1, 2, 3, 0)))) + (((108) * mn(p, 1, 3, 2, 1, 0, 5, 1) + ((-15) * mn(p, 1, 3, 2, 0, 4, 2, 0) + (-72) * mn(p, 1, 3, 2, 0, 2, 4, 1))) + ((-27) * mn(p, 1, 3, 2, 0, 0, 6, 2) + ((108) * mn(p, 1, 2, 3, 4, 1, 1, 0) + (-18) * mn(p, 1, 2, 3, 3, 3, 0, 0))))) + ((((-162) * mn(p, 1, 2, 3, 3, 1, 2, 1) + ((18) * mn(p, 1, 2, 3, 2, 3, 1, 1) + (54) * mn(p, 1, 2, 3, 2, 1, 3, 2))) + ((-324) * mn(p, 1, 2, 3, 2, 1, 3, 0) + ((126) * mn(p, 1, 2, 3, 1, 3, 2, 0) + (378) * mn(p, 1, 2, 3, 1, 1, 4, 1)))) + (((-6) * mn(p, 1, 2, 3, 0, 5, 1, 0) + ((-90) * mn(p, 1, 2, 3, 0, 3, 3, 1) + (-108) * mn(p, 1, 2, 3, 0, 1, 5, 2))) + ((27) * mn(p, 1, 1, 4, 4, 2, 0, 0) + ((-54) * mn(p, 1, 1, 4, 3, 2, 1, 1) + (27) * mn(p, 1, 1, 4, 2, 2, 2, 2))))))) + ((((((-243) * mn(p, 1, 1, 4, 2, 2, 2, 0) + (36) * mn(p, 1, 1, 4, 1, 4, 1, 0)) + ((378) * mn(p, 1, 1, 4, 1, 2, 3, 1) + ((-36) * mn(p, 1, 1, 4, 0, 4, 2, 1) + (-135) * mn(p, 1, 1, 4, 0, 2, 4, 2)))) + (((-54) * mn(p, 1, 0, 5, 2, 3, 1, 0) + ((108) * mn(p, 1, 0, 5, 1, 3, 2, 1) + (-54) * mn(p, 1, 0, 5, 0, 3, 3, 2))) + ((2) * mn(p, 0, 5, 1, 0, 4, 2, 0) + ((6) * mn(p, 0, 5, 1, 0, 2, 4, 1) + (36) * mn(p, 0, 4, 2, 2, 1, 3, 0))))) + ((((-30) * mn(p, 0, 4, 2, 1, 3, 2, 0) + ((-72) * mn(p, 0, 4, 2, 1, 1, 4, 1) + (3) * mn(p, 0, 4, 2, 0, 5, 1, 0))) + ((24) * mn(p, 0, 4, 2, 0, 3, 3, 1) + ((27) * mn(p, 0, 4, 2, 0, 1, 5, 2) + (-216) * mn(p, 0, 3, 3, 3, 0, 3, 0)))) + (((180) * mn(p, 0, 3, 3, 2, 2, 2, 0) + ((324) * mn(p, 0, 3, 3, 2, 0, 4, 1) + (-36) * mn(p, 0, 3, 3, 1, 4, 1, 0))) + ((-234) * mn(p, 0, 3, 3, 1, 2, 3, 1) + ((-162) * mn(p, 0, 3, 3, 1, 0, 5, 2) + (1) * mn(p, 0, 3, 3, 0, 6, 0, 0)))))) + (((((27) * mn(p, 0, 3, 3, 0, 4, 2, 1) + (81) * mn(p, 0, 3, 3, 0, 2, 4, 2)) + ((27) * mn(p, 0, 3, 3, 0, 0, 6, 3) + ((-324) * mn(p, 0, 2, 4, 3, 1, 2, 0) + (135) * mn(p, 0, 2, 4, 2, 3, 1, 0)))) + (((648) * mn(p, 0, 2, 4, 2, 1, 3, 1) + ((-9) * mn(p, 0, 2, 4, 1, 5, 0, 0) + (-216) * mn(p, 0, 2, 4, 1, 3, 2, 1))) + ((-405) * mn(p, 0, 2, 4, 1, 1, 4, 2) + ((9) * mn(p, 0, 2, 4, 0, 5, 1, 1) + (81) * mn(p, 0, 2, 4, 0, 3, 3, 2))))) + ((((81) * mn(p, 0, 2, 4, 0, 1, 5, 3) + ((-162) * mn(p, 0, 1, 5, 3, 2, 1, 0) + (27) * mn(p, 0, 1, 5, 2, 4, 0, 0))) + ((405) * mn(p, 0, 1, 5, 2, 2, 2, 1) + ((-54) * mn(p, 0, 1, 5, 1, 4, 1, 1) + (-324) * mn(p, 0, 1, 5, 1, 2, 3, 2)))) + (((27) * mn(p, 0, 1, 5, 0, 4, 2, 2) + ((81) * mn(p, 0, 1, 5, 0, 2, 4, 3) + (-27) * mn(p, 0, 0, 6, 3, 3, 0, 0))) + ((81) * mn(p, 0, 0, 6, 2, 3, 1, 1) + ((-81) * mn(p, 0, 0, 6, 1, 3, 2, 2) + (27) * mn(p, 0, 0, 6, 0, 3, 3, 3)))))))));
    assert(cc1 * q == ((((((((27) * mn(p, 6, 0, 0, 3, 3, 0, 0) + (81) * mn(p, 5, 1, 0, 4, 2, 0, 0)) + ((-81) * mn(p, 5, 1, 0, 2, 2, 2, 0) + (-162) * mn(p, 5, 0, 1, 2, 3, 1, 0))) + (((81) * mn(p, 4, 2, 0, 5, 1, 0, 0) + (-162) * mn(p, 4, 2, 0, 3, 1, 2, 0)) + ((27) * mn(p, 4, 2, 0, 2, 3, 1, 0) + ((81) * mn(p, 4, 2, 0, 1, 1, 4, 0) + (-486) * mn(p, 4, 1, 1, 3, 2, 1, 0))))) + ((((27) * mn(p, 4, 1, 1, 2, 4, 0, 0) + (81) * mn(p, 4, 1, 1, 2, 2, 2, 1)) + ((324) * mn(p, 4, 1, 1, 1, 2, 3, 0) + ((-81) * mn(p, 4, 0, 2, 3, 3, 0, 0) + (81) * mn(p, 4, 0, 2, 2, 3, 1, 1)))) + (((324) * mn(p, 4, 0, 2, 1, 3, 2, 0) + (27) * mn(p, 3, 3, 0, 6, 0, 0, 0)) + ((-81) * mn(p, 3, 3, 0, 4, 0, 2, 0) + ((54) * mn(p, 3, 3, 0, 3, 2, 1, 0) + (81) * mn(p, 3, 3, 0, 2, 0, 4, 0)))))) + (((((-54) * mn(p, 3, 3, 0, 1, 2, 3, 0) + (-27) * mn(p, 3, 3, 0, 0, 0, 6, 0)) + ((-486) * mn(p, 3, 2, 1, 4, 1, 1, 0) + ((54) * mn(p, 3, 2, 1, 3, 3, 0, 0) + (162) * mn(p, 3, 2, 1, 3, 1, 2, 1)))) + (((648) * mn(p, 3, 2, 1, 2, 1, 3, 0) + (-162) * mn(p, 3, 2, 1, 1, 3, 2, 0)) + ((-162) * mn(p, 3, 2, 1, 1, 1, 4, 1) + ((-162) * mn(p, 3, 2, 1, 0, 1, 5, 0) + (-162) * mn(p, 3, 1, 2, 4, 2, 0, 0))))) + ((((162) * mn(p, 3, 1, 2, 3, 2, 1, 1) + (1134) * mn(p, 3, 1, 2, 2, 2, 2, 0)) + ((-108) * mn(p, 3, 1, 2, 1, 4, 1, 0) + ((-486) * mn(p, 3, 1, 2, 1, 2, 3, 1) + (-324) * mn(p, 3, 1, 2, 0, 2, 4, 0)))) + (((324) * mn(p, 3, 0, 3, 2, 3, 1, 0) + (-324) * mn(p, 3, 0, 3, 1, 3, 2, 1)) + ((-216) * mn(p, 3, 0, 3, 0, 3, 3, 0) + ((27) * mn(p, 2, 4, 0, 4, 1, 1, 0) + (-54) * mn(p, 2, 4, 0, 2, 1, 3, 0))))))) + ((((((9) * mn(p, 2, 4, 0, 1, 3, 2, 0) + (27) * mn(p, 2, 4, 0, 0, 1, 5, 0)) + ((-162) * mn(p, 2, 3, 1, 5, 0, 1, 0) + ((27) * mn(p, 2, 3, 1, 4, 2, 0, 0) + (81) * mn(p, 2, 3, 1, 4, 0, 2, 1)))) + (((324) * mn(p, 2, 3, 1, 3, 0, 3, 0) + (-270) * mn(p, 2, 3, 1, 2, 2, 2, 0)) + ((-162) * mn(p, 2, 3, 1, 2, 0, 4, 1) + ((18) * mn(p, 2, 3, 1, 1, 4, 1, 0) + (54) * mn(p, 2, 3, 1, 1, 2, 3, 1))))) + ((((-162) * mn(p, 2, 3, 1, 1, 0, 5, 0) + (135) * mn(p, 2, 3, 1, 0, 2, 4, 0)) + ((81) * mn(p, 2, 3, 1, 0, 0, 6, 1) + ((-81) * mn(p, 2, 2, 2, 5, 1, 0, 0) + (81) * mn(p, 2, 2, 2, 4, 1, 1, 1)))) + (((1134) * mn(p, 2, 2, 2, 3, 1, 2, 0) + (-270) * mn(p, 2, 2, 2, 2, 3, 1, 0)) + ((-810) * mn(p, 2, 2, 2, 2, 1, 3, 1) + ((9) * mn(p, 2, 2, 2, 1, 5, 0, 0) + (108) * mn(p, 2, 2, 2, 1, 3, 2, 1)))))) + (((((81) * mn(p, 2, 2, 2, 1, 1, 4, 2) + (-729) * mn(p, 2, 2, 2, 1, 1, 4, 0)) + ((216) * mn(p, 2, 2, 2, 0, 3, 3, 0) + ((405) * mn(p, 2, 2, 2, 0, 1, 5, 1) + (648) * mn(p, 2, 1, 3, 3, 2, 1, 0)))) + (((-54) * mn(p, 2, 1, 3, 2, 4, 0, 0) + (-810) * mn(p, 2, 1, 3, 2, 2, 2, 1)) + ((54) * mn(p, 2, 1, 3, 1, 4, 1, 1) + ((162) * mn(p, 2, 1, 3, 1, 2, 3, 2) + (-972) * mn(p, 2, 1, 3, 1, 2, 3, 0))))) + ((((108) * mn(p, 2, 1, 3, 0, 4, 2, 0) + (648) * mn(p, 2, 1, 3, 0, 2, 4, 1)) + ((81) * mn(p, 2, 0, 4, 3, 3, 0, 0) + ((-162) * mn(p, 2, 0, 4, 2, 3, 1, 1) + (81) * mn(p, 2, 0, 4, 1, 3, 2, 2)))) + (((-324) * mn(p, 2, 0, 4, 1, 3, 2, 0) + (324) * mn(p, 2, 0, 4, 0, 3, 3, 1)) + ((9) * mn(p, 1, 5, 0, 2, 2, 2, 0) + ((-9) * mn(p, 1, 5, 0, 0, 2, 4, 0) + (-108) * mn(p, 1, 4, 1, 3, 1, 2, 0)))))))) + (((((((18) * mn(p, 1, 4, 1, 2, 3, 1, 0) + (54) * mn(p, 1, 4, 1, 2, 1, 3, 1)) + ((108) * mn(p, 1, 4, 1, 1, 1, 4, 0) + (-36) * mn(p, 1, 4, 1, 0, 3, 3, 0))) + (((-54) * mn(p, 1, 4, 1, 0, 1, 5, 1) + (324) * mn(p, 1, 3, 2, 4, 0, 2, 0)) + ((-162) * mn(p, 1, 3, 2, 3, 2, 1, 0) + ((-324) * mn(p, 1, 3, 2, 3, 0, 3, 1) + (9) * mn(p, 1, 3, 2, 2, 4, 0, 0))))) + ((((108) * mn(p, 1, 3, 2, 2, 2, 2, 1) + (81) * mn(p, 1, 3, 2, 2, 0, 4, 2)) + ((-324) * mn(p, 1, 3, 2, 2, 0, 4, 0) + ((378) * mn(p, 1, 3, 2, 1, 2, 3, 0) + (324) * mn(p, 1, 3, 2, 1, 0, 5, 1)))) + (((-45) * mn(p, 1, 3, 2, 0, 4, 2, 0) + (-216) * mn(p, 1, 3, 2, 0, 2, 4, 1)) + ((-81) * mn(p, 1, 3, 2, 0, 0, 6, 2) + ((324) * mn(p, 1, 2, 3, 4, 1, 1, 0) + (-54) * mn(p, 1, 2, 3, 3, 3, 0, 0)))))) + (((((-486) * mn(p, 1, 2, 3, 3, 1, 2, 1) + (54) * mn(p, 1, 2, 3, 2, 3, 1, 1)) + ((162) * mn(p, 1, 2, 3, 2, 1, 3, 2) + ((-972) * mn(p, 1, 2, 3, 2, 1, 3, 0) + (378) * mn(p, 1, 2, 3, 1, 3, 2, 0)))) + (((1134) * mn(p, 1, 2, 3, 1, 1, 4, 1) + (-18) * mn(p, 1, 2, 3, 0, 5, 1, 0)) + ((-270) * mn(p, 1, 2, 3, 0, 3, 3, 1) + ((-324) * mn(p, 1, 2, 3, 0, 1, 5, 2) + (81) * mn(p, 1, 1, 4, 4, 2, 0, 0))))) + ((((-162) * mn(p, 1, 1, 4, 3, 2, 1, 1) + (81) * mn(p, 1, 1, 4, 2, 2, 2, 2)) + ((-729) * mn(p, 1, 1, 4, 2, 2, 2, 0) + ((108) * mn(p, 1, 1, 4, 1, 4, 1, 0) + (1134) * mn(p, 1, 1, 4, 1, 2, 3, 1)))) + (((-108) * mn(p, 1, 1, 4, 0, 4, 2, 1) + (-405) * mn(p, 1, 1, 4, 0, 2, 4, 2)) + ((-162) * mn(p, 1, 0, 5, 2, 3, 1, 0) + ((324) * mn(p, 1, 0, 5, 1, 3, 2, 1) + (-162) * mn(p, 1, 0, 5, 0, 3, 3, 2))))))) + ((((((1) * mn(p, 0, 6, 0, 0, 3, 3, 0) + (-18) * mn(p, 0, 5, 1, 1, 2, 3, 0)) + ((3) * mn(p, 0, 5, 1, 0, 4, 2, 0) + ((9) * mn(p, 0, 5, 1, 0, 2, 4, 1) + (108) * mn(p, 0, 4, 2, 2, 1, 3, 0)))) + (((-45) * mn(p, 0, 4, 2, 1, 3, 2, 0) + (-108) * mn(p, 0, 4, 2, 1, 1, 4, 1)) + ((3) * mn(p, 0, 4, 2, 0, 5, 1, 0) + ((27) * mn(p, 0, 4, 2, 0, 3, 3, 1) + (27) * mn(p, 0, 4, 2, 0, 1, 5, 2))))) + ((((-216) * mn(p, 0, 3, 3, 3, 0, 3, 0) + (216) * mn(p, 0, 3, 3, 2, 2, 2, 0)) + ((324) * mn(p, 0, 3, 3, 2, 0, 4, 1) + ((-36) * mn(p, 0, 3, 3, 1, 4, 1, 0) + (-270) * mn(p, 0, 3, 3, 1, 2, 3, 1)))) + (((-162) * mn(p, 0, 3, 3, 1, 0, 5, 2) + (1) * mn(p, 0, 3, 3, 0, 6, 0, 0)) + ((27) * mn(p, 0, 3, 3, 0, 4, 2, 1) + ((81) * mn(p, 0, 3, 3, 0, 2, 4, 2) + (27) * mn(p, 0, 3, 3, 0, 0, 6, 3)))))) + (((((-324) * mn(p, 0, 2, 4, 3, 1, 2, 0) + (135) * mn(p, 0, 2, 4, 2, 3, 1, 0)) + ((648) * mn(p, 0, 2, 4, 2, 1, 3, 1) + ((-9) * mn(p, 0, 2, 4, 1, 5, 0, 0) + (-216) * mn(p, 0, 2, 4, 1, 3, 2, 1)))) + (((-405) * mn(p, 0, 2, 4, 1, 1, 4, 2) + (9) * mn(p, 0, 2, 4, 0, 5, 1, 1)) + ((81) * mn(p, 0, 2, 4, 0, 3, 3, 2) + ((81) * mn(p, 0, 2, 4, 0, 1, 5, 3) + (-162) * mn(p, 0, 1, 5, 3, 2, 1, 0))))) + ((((27) * mn(p, 0, 1, 5, 2, 4, 0, 0) + (405) * mn(p, 0, 1, 5, 2, 2, 2, 1)) + ((-54) * mn(p, 0, 1, 5, 1, 4, 1, 1) + ((-324) * mn(p, 0, 1, 5, 1, 2, 3, 2) + (27) * mn(p, 0, 1, 5, 0, 4, 2, 2)))) + (((81) * mn(p, 0, 1, 5, 0, 2, 4, 3) + (-27) * mn(p, 0, 0, 6, 3, 3, 0, 0)) + ((81) * mn(p, 0, 0, 6, 2, 3, 1, 1) + ((-81) * mn(p, 0, 0, 6, 1, 3, 2, 2) + (27) * mn(p, 0, 0, 6, 0, 3, 3, 3))))))))));
}

#[verifier::rlimit(100)]
proof fn acb_prod18_c0(p: Pt)
    ensures
        (((((((9) * mn(p, 4, 0, 0, 2, 2, 0, 0) + (18) * mn(p, 3, 1, 0, 3, 1, 0, 0)) + ((-18) * mn(p, 3, 1, 0, 1, 1, 2, 0) + (-36) * mn(p, 3, 0, 1, 1, 2, 1, 0))) + (((9) * mn(p, 2, 2, 0, 4, 0, 0, 0) + (-18) * mn(p, 2, 2, 0, 2, 0, 2, 0)) + ((6) * mn(p, 2, 2, 0, 1, 2, 1, 0) + (9) * mn(p, 2, 2, 0, 0, 0, 4, 0)))) + ((((-72) * mn(p, 2, 1, 1, 2, 1, 1, 0) + (6) * mn(p, 2, 1, 1, 1, 3, 0, 0)) + ((18) * mn(p, 2, 1, 1, 1, 1, 2, 1) + (36) * mn(p, 2, 1, 1, 0, 1, 3, 0))) + (((-18) * mn(p, 2, 0, 2, 2, 2, 0, 0) + (18) * mn(p, 2, 0, 2, 1, 2, 1, 1)) + ((36) * mn(p, 2, 0, 2, 0, 2, 2, 0) + (6) * mn(p, 1, 3, 0, 2, 1, 1, 0))))) + (((((-6) * mn(p, 1, 3, 0, 0, 1, 3, 0) + (-36) * mn(p, 1, 2, 1, 3, 0, 1, 0)) + ((6) * mn(p, 1, 2, 1, 2, 2, 0, 0) + (18) * mn(p, 1, 2, 1, 2, 0, 2, 1))) + (((36) * mn(p, 1, 2, 1, 1, 0, 3, 0) + (-18) * mn(p, 1, 2, 1, 0, 2, 2, 0)) + ((-18) * mn(p, 1, 2, 1, 0, 0, 4, 1) + (-18) * mn(p, 1, 1, 2, 3, 1, 0, 0)))) + ((((18) * mn(p, 1, 1, 2, 2, 1, 1, 1) + (90) * mn(p, 1, 1, 2, 1, 1, 2, 0)) + ((-12) * mn(p, 1, 1, 2, 0, 3, 1, 0) + (-54) * mn(p, 1, 1, 2, 0, 1, 3, 1))) + (((36) * mn(p, 1, 0, 3, 1, 2, 1, 0) + (-36) * mn(p, 1, 0, 3, 0, 2, 2, 1)) + ((1) * mn(p, 0, 4, 0, 0, 2, 2, 0) + (-12) * mn(p, 0, 3, 1, 1, 1, 2, 0))))))) * (((((3) * mn(p, 2, 0, 0, 1, 1, 0, 0) + (3) * mn(p, 1, 1, 0, 2, 0, 0, 0)) + ((-3) * mn(p, 1, 1, 0, 0, 0, 2, 0) + ((-6) * mn(p, 1, 0, 1, 0, 1, 1, 0) + (1) * mn(p, 0, 2, 0, 0, 1, 1, 0)))) + (((-6) * mn(p, 0, 1, 1, 1, 0, 1, 0) + (1) * mn(p, 0, 1, 1, 0, 2, 0, 0)) + ((3) * mn(p, 0, 1, 1, 0, 0, 2, 1) + ((-3) * mn(p, 0, 0, 2, 1, 1, 0, 0) + (3) * mn(p, 0, 0, 2, 0, 1, 1, 1)))))) == ((((((((27) * mn(p, 6, 0, 0, 3, 3, 0, 0) + (81) * mn(p, 5, 1, 0, 4, 2, 0, 0)) + ((-81) * mn(p, 5, 1, 0, 2, 2, 2, 0) + (-162) * mn(p, 5, 0, 1, 2, 3, 1, 0))) + (((81) * mn(p, 4, 2, 0, 5, 1, 0, 0) + (-162) * mn(p, 4, 2, 0, 3, 1, 2, 0)) + ((27) * mn(p, 4, 2, 0, 2, 3, 1, 0) + (81) * mn(p, 4, 2, 0, 1, 1, 4, 0)))) + ((((-486) * mn(p, 4, 1, 1, 3, 2, 1, 0) + (27) * mn(p, 4, 1, 1, 2, 4, 0, 0)) + ((81) * mn(p, 4, 1, 1, 2, 2, 2, 1) + (324) * mn(p, 4, 1, 1, 1, 2, 3, 0))) + (((-81) * mn(p, 4, 0, 2, 3, 3, 0, 0) + (81) * mn(p, 4, 0, 2, 2, 3, 1, 1)) + ((324) * mn(p, 4, 0, 2, 1, 3, 2, 0) + (27) * mn(p, 3, 3, 0, 6, 0, 0, 0))))) + (((((-81) * mn(p, 3, 3, 0, 4, 0, 2, 0) + (54) * mn(p, 3, 3, 0, 3, 2, 1, 0)) + ((81) * mn(p, 3, 3, 0, 2, 0, 4, 0) + (-54) * mn(p, 3, 3, 0, 1, 2, 3, 0))) + (((-27) * mn(p, 3, 3, 0, 0, 0, 6, 0) + (-486) * mn(p, 3, 2, 1, 4, 1, 1, 0)) + ((54) * mn(p, 3, 2, 1, 3, 3, 0, 0) + (162) * mn(p, 3, 2, 1, 3, 1, 2, 1)))) + ((((648) * mn(p, 3, 2, 1, 2, 1, 3, 0) + (-162) * mn(p, 3, 2, 1, 1, 3, 2, 0)) + ((-162) * mn(p, 3, 2, 1, 1, 1, 4, 1) + (-162) * mn(p, 3, 2, 1, 0, 1, 5, 0))) + (((-162) * mn(p, 3, 1, 2, 4, 2, 0, 0) + (162) * mn(p, 3, 1, 2, 3, 2, 1, 1)) + ((1134) * mn(p, 3, 1, 2, 2, 2, 2, 0) + (-108) * mn(p, 3, 1, 2, 1, 4, 1, 0)))))) + ((((((-486) * mn(p, 3, 1, 2, 1, 2, 3, 1) + (-324) * mn(p, 3, 1, 2, 0, 2, 4, 0)) + ((324) * mn(p, 3, 0, 3, 2, 3, 1, 0) + (-324) * mn(p, 3, 0, 3, 1, 3, 2, 1))) + (((-216) * mn(p, 3, 0, 3, 0, 3, 3, 0) + (27) * mn(p, 2, 4, 0, 4, 1, 1, 0)) + ((-54) * mn(p, 2, 4, 0, 2, 1, 3, 0) + (9) * mn(p, 2, 4, 0, 1, 3, 2, 0)))) + ((((27) * mn(p, 2, 4, 0, 0, 1, 5, 0) + (-162) * mn(p, 2, 3, 1, 5, 0, 1, 0)) + ((27) * mn(p, 2, 3, 1, 4, 2, 0, 0) + (81) * mn(p, 2, 3, 1, 4, 0, 2, 1))) + (((324) * mn(p, 2, 3, 1, 3, 0, 3, 0) + (-270) * mn(p, 2, 3, 1, 2, 2, 2, 0)) + ((-162) * mn(p, 2, 3, 1, 2, 0, 4, 1) + (12) * mn(p, 2, 3, 1, 1, 4, 1, 0))))) + (((((36) * mn(p, 2, 3, 1, 1, 2, 3, 1) + (-162) * mn(p, 2, 3, 1, 1, 0, 5, 0)) + ((135) * mn(p, 2, 3, 1, 0, 2, 4, 0) + (81) * mn(p, 2, 3, 1, 0, 0, 6, 1))) + (((-81) * mn(p, 2, 2, 2, 5, 1, 0, 0) + (81) * mn(p, 2, 2, 2, 4, 1, 1, 1)) + ((1026) * mn(p, 2, 2, 2, 3, 1, 2, 0) + (-216) * mn(p, 2, 2, 2, 2, 3, 1, 0)))) + ((((-702) * mn(p, 2, 2, 2, 2, 1, 3, 1) + (6) * mn(p, 2, 2, 2, 1, 5, 0, 0)) + ((72) * mn(p, 2, 2, 2, 1, 3, 2, 1) + (54) * mn(p, 2, 2, 2, 1, 1, 4, 2))) + (((-729) * mn(p, 2, 2, 2, 1, 1, 4, 0) + (216) * mn(p, 2, 2, 2, 0, 3, 3, 0)) + ((405) * mn(p, 2, 2, 2, 0, 1, 5, 1) + (540) * mn(p, 2, 1, 3, 3, 2, 1, 0))))))) + (((((((-36) * mn(p, 2, 1, 3, 2, 4, 0, 0) + (-648) * mn(p, 2, 1, 3, 2, 2, 2, 1)) + ((36) * mn(p, 2, 1, 3, 1, 4, 1, 1) + (108) * mn(p, 2, 1, 3, 1, 2, 3, 2))) + (((-972) * mn(p, 2, 1, 3, 1, 2, 3, 0) + (108) * mn(p, 2, 1, 3, 0, 4, 2, 0)) + ((648) * mn(p, 2, 1, 3, 0, 2, 4, 1) + (54) * mn(p, 2, 0, 4, 3, 3, 0, 0)))) + ((((-108) * mn(p, 2, 0, 4, 2, 3, 1, 1) + (54) * mn(p, 2, 0, 4, 1, 3, 2, 2)) + ((-324) * mn(p, 2, 0, 4, 1, 3, 2, 0) + (324) * mn(p, 2, 0, 4, 0, 3, 3, 1))) + (((9) * mn(p, 1, 5, 0, 2, 2, 2, 0) + (-9) * mn(p, 1, 5, 0, 0, 2, 4, 0)) + ((-108) * mn(p, 1, 4, 1, 3, 1, 2, 0) + (12) * mn(p, 1, 4, 1, 2, 3, 1, 0))))) + (((((36) * mn(p, 1, 4, 1, 2, 1, 3, 1) + (108) * mn(p, 1, 4, 1, 1, 1, 4, 0)) + ((-30) * mn(p, 1, 4, 1, 0, 3, 3, 0) + (-36) * mn(p, 1, 4, 1, 0, 1, 5, 1))) + (((216) * mn(p, 1, 3, 2, 4, 0, 2, 0) + (-108) * mn(p, 1, 3, 2, 3, 2, 1, 0)) + ((-216) * mn(p, 1, 3, 2, 3, 0, 3, 1) + (6) * mn(p, 1, 3, 2, 2, 4, 0, 0)))) + ((((72) * mn(p, 1, 3, 2, 2, 2, 2, 1) + (54) * mn(p, 1, 3, 2, 2, 0, 4, 2)) + ((-216) * mn(p, 1, 3, 2, 2, 0, 4, 0) + (324) * mn(p, 1, 3, 2, 1, 2, 3, 0))) + (((216) * mn(p, 1, 3, 2, 1, 0, 5, 1) + (-30) * mn(p, 1, 3, 2, 0, 4, 2, 0)) + ((-144) * mn(p, 1, 3, 2, 0, 2, 4, 1) + (-54) * mn(p, 1, 3, 2, 0, 0, 6, 2)))))) + ((((((216) * mn(p, 1, 2, 3, 4, 1, 1, 0) + (-36) * mn(p, 1, 2, 3, 3, 3, 0, 0)) + ((-324) * mn(p, 1, 2, 3, 3, 1, 2, 1) + (36) * mn(p, 1, 2, 3, 2, 3, 1, 1))) + (((108) * mn(p, 1, 2, 3, 2, 1, 3, 2) + (-648) * mn(p, 1, 2, 3, 2, 1, 3, 0)) + ((252) * mn(p, 1, 2, 3, 1, 3, 2, 0) + (756) * mn(p, 1, 2, 3, 1, 1, 4, 1)))) + ((((-12) * mn(p, 1, 2, 3, 0, 5, 1, 0) + (-180) * mn(p, 1, 2, 3, 0, 3, 3, 1)) + ((-216) * mn(p, 1, 2, 3, 0, 1, 5, 2) + (54) * mn(p, 1, 1, 4, 4, 2, 0, 0))) + (((-108) * mn(p, 1, 1, 4, 3, 2, 1, 1) + (54) * mn(p, 1, 1, 4, 2, 2, 2, 2)) + ((-486) * mn(p, 1, 1, 4, 2, 2, 2, 0) + (72) * mn(p, 1, 1, 4, 1, 4, 1, 0))))) + (((((756) * mn(p, 1, 1, 4, 1, 2, 3, 1) + (-72) * mn(p, 1, 1, 4, 0, 4, 2, 1)) + ((-270) * mn(p, 1, 1, 4, 0, 2, 4, 2) + (-108) * mn(p, 1, 0, 5, 2, 3, 1, 0))) + (((216) * mn(p, 1, 0, 5, 1, 3, 2, 1) + (-108) * mn(p, 1, 0, 5, 0, 3, 3, 2)) + ((1) * mn(p, 0, 6, 0, 0, 3, 3, 0) + (-18) * mn(p, 0, 5, 1, 1, 2, 3, 0)))) + ((((1) * mn(p, 0, 5, 1, 0, 4, 2, 0) + (3) * mn(p, 0, 5, 1, 0, 2, 4, 1)) + ((72) * mn(p, 0, 4, 2, 2, 1, 3, 0) + (-15) * mn(p, 0, 4, 2, 1, 3, 2, 0))) + (((-36) * mn(p, 0, 4, 2, 1, 1, 4, 1) + (3) * mn(p, 0, 4, 2, 0, 3, 3, 1)) + ((36) * mn(p, 0, 3, 3, 2, 2, 2, 0) + (-36) * mn(p, 0, 3, 3, 1, 2, 3, 1)))))))),
{
    let t0 = (9) * mn(p, 4, 0, 0, 2, 2, 0, 0);
    let t1 = (18) * mn(p, 3, 1, 0, 3, 1, 0, 0);
    let t2 = (-18) * mn(p, 3, 1, 0, 1, 1, 2, 0);
    let t3 = (-36) * mn(p, 3, 0, 1, 1, 2, 1, 0);
    let t4 = (9) * mn(p, 2, 2, 0, 4, 0, 0, 0);
    let t5 = (-18) * mn(p, 2, 2, 0, 2, 0, 2, 0);
    let t6 = (6) * mn(p, 2, 2, 0, 1, 2, 1, 0);
    let t7 = (9) * mn(p, 2, 2, 0, 0, 0, 4, 0);
    let t8 = (-72) * mn(p, 2, 1, 1, 2, 1, 1, 0);
    let t9 = (6) * mn(p, 2, 1, 1, 1, 3, 0, 0);
    let t10 = (18) * mn(p, 2, 1, 1, 1, 1, 2, 1);
    let t11 = (36) * mn(p, 2, 1, 1, 0, 1, 3, 0);
    let t12 = (-18) * mn(p, 2, 0, 2, 2, 2, 0, 0);
    let t13 = (18) * mn(p, 2, 0, 2, 1, 2, 1, 1);
    let t14 = (36) * mn(p, 2, 0, 2, 0, 2, 2, 0);
    let t15 = (6) * mn(p, 1, 3, 0, 2, 1, 1, 0);
    let t16 = (-6) * mn(p, 1, 3, 0, 0, 1, 3, 0);
    let t17 = (-36) * mn(p, 1, 2, 1, 3, 0, 1, 0);
    let t18 = (6) * mn(p, 1, 2, 1, 2, 2, 0, 0);
    let t19 = (18) * mn(p, 1, 2, 1, 2, 0, 2, 1);
    let t20 = (36) * mn(p, 1, 2, 1, 1, 0, 3, 0);
    let t21 = (-18) * mn(p, 1, 2, 1, 0, 2, 2, 0);
    let t22 = (-18) * mn(p, 1, 2, 1, 0, 0, 4, 1);
    let t23 = (-18) * mn(p, 1, 1, 2, 3, 1, 0, 0);
    let t24 = (18) * mn(p, 1, 1, 2, 2, 1, 1, 1);
    let t25 = (90) * mn(p, 1, 1, 2, 1, 1, 2, 0);
    let t26 = (-12) * mn(p, 1, 1, 2, 0, 3, 1, 0);
    let t27 = (-54) * mn(p, 1, 1, 2, 0, 1, 3, 1);
    let t28 = (36) * mn(p, 1, 0, 3, 1, 2, 1, 0);
    let t29 = (-36) * mn(p, 1, 0, 3, 0, 2, 2, 1);
    let t30 = (1) * mn(p, 0, 4, 0, 0, 2, 2, 0);
    let t31 = (-12) * mn(p, 0, 3, 1, 1, 1, 2, 0);
    let s0 = (3) * mn(p, 2, 0, 0, 1, 1, 0, 0);
    let s1 = (3) * mn(p, 1, 1, 0, 2, 0, 0, 0);
    let s2 = (-3) * mn(p, 1, 1, 0, 0, 0, 2, 0);
    let s3 = (-6) * mn(p, 1, 0, 1, 0, 1, 1, 0);
    let s4 = (1) * mn(p, 0, 2, 0, 0, 1, 1, 0);
    let s5 = (-6) * mn(p, 0, 1, 1, 1, 0, 1, 0);
    let s6 = (1) * mn(p, 0, 1, 1, 0, 2, 0, 0);
    let s7 = (3) * mn(p, 0, 1, 1, 0, 0, 2, 1);
    let s8 = (-3) * mn(p, 0, 0, 2, 1, 1, 0, 0);
    let s9 = (3) * mn(p, 0, 0, 2, 0, 1, 1, 1);
    let pp0 = t0;
    let pp1 = pp0 + t1;
    let pp2 = pp1 + t2;
    let pp3 = pp2 + t3;
    let pp4 = pp3 + t4;
    let pp5 = pp4 + t5;
    let pp6 = pp5 + t6;
    let pp7 = pp6 + t7;
    let pp8 = pp7 + t8;
    let pp9 = pp8 + t9;
    let pp10 = pp9 + t10;
    let pp11 = pp10 + t11;
    let pp12 = pp11 + t12;
    let pp13 = pp12 + t13;
    let pp14 = pp13 + t14;
    let pp15 = pp14 + t15;
    let pp16 = pp15 + t16;
    let pp17 = pp16 + t17;
    let pp18 = pp17 + t18;
    let pp19 = pp18 + t19;
    let pp20 = pp19 + t20;
    let pp21 = pp20 + t21;
    let pp22 = pp21 + t22;
    let pp23 = pp22 + t23;
    let pp24 = pp23 + t24;
    let pp25 = pp24 + t25;
    let pp26 = pp25 + t26;
    let pp27 = pp26 + t27;
    let pp28 = pp27 + t28;
    let pp29 = pp28 + t29;
    let pp30 = pp29 + t30;
    let pp31 = pp30 + t31;
    let qq0 = s0;
    let qq1 = qq0 + s1;
    let qq2 = qq1 + s2;
    let qq3 = qq2 + s3;
    let qq4 = qq3 + s4;
    let qq5 = qq4 + s5;
    let qq6 = qq5 + s6;
    let qq7 = qq6 + s7;
    let qq8 = qq7 + s8;
    let qq9 = qq8 + s9;
    let q = qq9;
    lemma_mul_is_distributive_add_other_way(q, pp0, t1);
    lemma_mul_is_distributive_add_other_way(q, pp1, t2);
    lemma_mul_is_distributive_add_other_way(q, pp2, t3);
    lemma_mul_is_distributive_add_other_way(q, pp3, t4);
    lemma_mul_is_distributive_add_other_way(q, pp4, t5);
    lemma_mul_is_distributive_add_other_way(q, pp5, t6);
    lemma_mul_is_distributive_add_other_way(q, pp6, t7);
    lemma_mul_is_distributive_add_other_way(q, pp7, t8);
    lemma_mul_is_distributive_add_other_way(q, pp8, t9);
    lemma_mul_is_distributive_add_other_way(q, pp9, t10);
    lemma_mul_is_distributive_add_other_way(q, pp10, t11);
    lemma_mul_is_distributive_add_other_way(q, pp11, t12);
    lemma_mul_is_distributive_add_other_way(q, pp12, t13);
    lemma_mul_is_distributive_add_other_way(q, pp13, t14);
    lemma_mul_is_distributive_add_other_way(q, pp14, t15);
    lemma_mul_is_distributive_add_other_way(q, pp15, t16);
    lemma_mul_is_distributive_add_other_way(q, pp16, t17);
    lemma_mul_is_distributive_add_other_way(q, pp17, t18);
    lemma_mul_is_distributive_add_other_way(q, pp18, t19);
    lemma_mul_is_distributive_add_other_way(q, pp19, t20);
    lemma_mul_is_distributive_add_other_way(q, pp20, t21);
    lemma_mul_is_distributive_add_other_way(q, pp21, t22);
    lemma_mul_is_distributive_add_other_way(q, pp22, t23);
    lemma_mul_is_distributive_add_other_way(q, pp23, t24);
    lemma_mul_is_distributive_add_other_way(q, pp24, t25);
    lemma_mul_is_distributive_add_other_way(q, pp25, t26);
    lemma_mul_is_distributive_add_other_way(q, pp26, t27);
    lemma_mul_is_distributive_add_other_way(q, pp27, t28);
    lemma_mul_is_distributive_add_other_way(q, pp28, t29);
    lemma_mul_is_distributive_add_other_way(q, pp29, t30);
    lemma_mul_is_distributive_add_other_way(q, pp30, t31);
    lemma_mul_is_distributive_add(t0, qq0, s1);
    lemma_mul_is_distributive_add(t0, qq1, s2);
    lemma_mul_is_distributive_add(t0, qq2, s3);
    lemma_mul_is_distributive_add(t0, qq3, s4);
    lemma_mul_is_distributive_add(t0, qq4, s5);
    lemma_mul_is_distributive_add(t0, qq5, s6);
    lemma_mul_is_distributive_add(t0, qq6, s7);
    lemma_mul_is_distributive_add(t0, qq7, s8);
    lemma_mul_is_distributive_add(t0, qq8, s9);
    lemma_mul_is_distributive_add(t1, qq0, s1);
    lemma_mul_is_distributive_add(t1, qq1, s2);
    lemma_mul_is_distributive_add(t1, qq2, s3);
    lemma_mul_is_distributive_add(t1, qq3, s4);
    lemma_mul_is_distributive_add(t1, qq4, s5);
    lemma_mul_is_distributive_add(t1, qq5, s6);
    lemma_mul_is_distributive_add(t1, qq6, s7);
    lemma_mul_is_distributive_add(t1, qq7, s8);
    lemma_mul_is_distributive_add(t1, qq8, s9);
    lemma_mul_is_distributive_add(t2, qq0, s1);
    lemma_mul_is_distributive_add(t2, qq1, s2);
    lemma_mul_is_distributive_add(t2, qq2, s3);
    lemma_mul_is_distributive_add(t2, qq3, s4);
    lemma_mul_is_distributive_add(t2, qq4, s5);
    lemma_mul_is_distributive_add(t2, qq5, s6);
    lemma_mul_is_distributive_add(t2, qq6, s7);
    lemma_mul_is_distributive_add(t2, qq7, s8);
    lemma_mul_is_distributive_add(t2, qq8, s9);
    lemma_mul_is_distributive_add(t3, qq0, s1);
    lemma_mul_is_distributive_add(t3, qq1, s2);
    lemma_mul_is_distributive_add(t3, qq2, s3);
    lemma_mul_is_distributive_add(t3, qq3, s4);
    lemma_mul_is_distributive_add(t3, qq4, s5);
    lemma_mul_is_distributive_add(t3, qq5, s6);
    lemma_mul_is_distributive_add(t3, qq6, s7);
    lemma_mul_is_distributive_add(t3, qq7, s8);
    lemma_mul_is_distributive_add(t3, qq8, s9);
    lemma_mul_is_distributive_add(t4, qq0, s1);
    lemma_mul_is_distributive_add(t4, qq1, s2);
    lemma_mul_is_distributive_add(t4, qq2, s3);
    lemma_mul_is_distributive_add(t4, qq3, s4);
    lemma_mul_is_distributive_add(t4, qq4, s5);
    lemma_mul_is_distributive_add(t4, qq5, s6);
    lemma_mul_is_distributive_add(t4, qq6, s7);
    lemma_mul_is_distributive_add(t4, qq7, s8);
    lemma_mul_is_distributive_add(t4, qq8, s9);
    lemma_mul_is_distributive_add(t5, qq0, s1);
    lemma_mul_is_distributive_add(t5, qq1, s2);
    lemma_mul_is_distributive_add(t5, qq2, s3);
    lemma_mul_is_distributive_add(t5, qq3, s4);
    lemma_mul_is_distributive_add(t5, qq4, s5);
    lemma_mul_is_distributive_add(t5, qq5, s6);
    lemma_mul_is_distributive_add(t5, qq6, s7);
    lemma_mul_is_distributive_add(t5, qq7, s8);
    lemma_mul_is_distributive_add(t5, qq8, s9);
    lemma_mul_is_distributive_add(t6, qq0, s1);
    lemma_mul_is_distributive_add(t6, qq1, s2);
    lemma_mul_is_distributive_add(t6, qq2, s3);
    lemma_mul_is_distributive_add(t6, qq3, s4);
    lemma_mul_is_distributive_add(t6, qq4, s5);
    lemma_mul_is_distributive_add(t6, qq5, s6);
    lemma_mul_is_distributive_add(t6, qq6, s7);
    lemma_mul_is_distributive_add(t6, qq7, s8);
    lemma_mul_is_distributive_add(t6, qq8, s9);
    lemma_mul_is_distributive_add(t7, qq0, s1);
    lemma_mul_is_distributive_add(t7, qq1, s2);
    lemma_mul_is_distributive_add(t7, qq2, s3);
    lemma_mul_is_distributive_add(t7, qq3, s4);
    lemma_mul_is_distributive_add(t7, qq4, s5);
    lemma_mul_is_distributive_add(t7, qq5, s6);
    lemma_mul_is_distributive_add(t7, qq6, s7);
    lemma_mul_is_distributive_add(t7, qq7, s8);
    lemma_mul_is_distributive_add(t7, qq8, s9);
    lemma_mul_is_distributive_add(t8, qq0, s1);
    lemma_mul_is_distributive_add(t8, qq1, s2);
    lemma_mul_is_distributive_add(t8, qq2, s3);
    lemma_mul_is_distributive_add(t8, qq3, s4);
    lemma_mul_is_distributive_add(t8, qq4, s5);
    lemma_mul_is_distributive_add(t8, qq5, s6);
    lemma_mul_is_distributive_add(t8, qq6, s7);
    lemma_mul_is_distributive_add(t8, qq7, s8);
    lemma_mul_is_distributive_add(t8, qq8, s9);
    lemma_mul_is_distributive_add(t9, qq0, s1);
    lemma_mul_is_distributive_add(t9, qq1, s2);
    lemma_mul_is_distributive_add(t9, qq2, s3);
    lemma_mul_is_distributive_add(t9, qq3, s4);
    lemma_mul_is_distributive_add(t9, qq4, s5);
    lemma_mul_is_distributive_add(t9, qq5, s6);
    lemma_mul_is_distributive_add(t9, qq6, s7);
    lemma_mul_is_distributive_add(t9, qq7, s8);
    lemma_mul_is_distributive_add(t9, qq8, s9);
    lemma_mul_is_distributive_add(t10, qq0, s1);
    lemma_mul_is_distributive_add(t10, qq1, s2);
    lemma_mul_is_distributive_add(t10, qq2, s3);
    lemma_mul_is_distributive_add(t10, qq3, s4);
    lemma_mul_is_distributive_add(t10, qq4, s5);
    lemma_mul_is_distributive_add(t10, qq5, s6);
    lemma_mul_is_distributive_add(t10, qq6, s7);
    lemma_mul_is_distributive_add(t10, qq7, s8);
    lemma_mul_is_distributive_add(t10, qq8, s9);
    lemma_mul_is_distributive_add(t11, qq0, s1);
    lemma_mul_is_distributive_add(t11, qq1, s2);
    lemma_mul_is_distributive_add(t11, qq2, s3);
    lemma_mul_is_distributive_add(t11, qq3, s4);
    lemma_mul_is_distributive_add(t11, qq4, s5);
    lemma_mul_is_distributive_add(t11, qq5, s6);
    lemma_mul_is_distributive_add(t11, qq6, s7);
    lemma_mul_is_distributive_add(t11, qq7, s8);
    lemma_mul_is_distributive_add(t11, qq8, s9);
    lemma_mul_is_distributive_add(t12, qq0, s1);
    lemma_mul_is_distributive_add(t12, qq1, s2);
    lemma_mul_is_distributive_add(t12, qq2, s3);
    lemma_mul_is_distributive_add(t12, qq3, s4);
    lemma_mul_is_distributive_add(t12, qq4, s5);
    lemma_mul_is_distributive_add(t12, qq5, s6);
    lemma_mul_is_distributive_add(t12, qq6, s7);
    lemma_mul_is_distributive_add(t12, qq7, s8);
    lemma_mul_is_distributive_add(t12, qq8, s9);
    lemma_mul_is_distributive_add(t13, qq0, s1);
    lemma_mul_is_distributive_add(t13, qq1, s2);
    lemma_mul_is_distributive_add(t13, qq2, s3);
    lemma_mul_is_distributive_add(t13, qq3, s4);
    lemma_mul_is_distributive_add(t13, qq4, s5);
    lemma_mul_is_distributive_add(t13, qq5, s6);
    lemma_mul_is_distributive_add(t13, qq6, s7);
    lemma_mul_is_distributive_add(t13, qq7, s8);
    lemma_mul_is_distributive_add(t13, qq8, s9);
    lemma_mul_is_distributive_add(t14, qq0, s1);
    lemma_mul_is_distributive_add(t14, qq1, s2);
    lemma_mul_is_distributive_add(t14, qq2, s3);
    lemma_mul_is_distributive_add(t14, qq3, s4);
    lemma_mul_is_distributive_add(t14, qq4, s5);
    lemma_mul_is_distributive_add(t14, qq5, s6);
    lemma_mul_is_distributive_add(t14, qq6, s7);
    lemma_mul_is_distributive_add(t14, qq7, s8);
    lemma_mul_is_distributive_add(t14, qq8, s9);
    lemma_mul_is_distributive_add(t15, qq0, s1);
    lemma_mul_is_distributive_add(t15, qq1, s2);
    lemma_mul_is_distributive_add(t15, qq2, s3);
    lemma_mul_is_distributive_add(t15, qq3, s4);
    lemma_mul_is_distributive_add(t15, qq4, s5);
    lemma_mul_is_distributive_add(t15, qq5, s6);
    lemma_mul_is_distributive_add(t15, qq6, s7);
    lemma_mul_is_distributive_add(t15, qq7, s8);
    lemma_mul_is_distributive_add(t15, qq8, s9);
    lemma_mul_is_distributive_add(t16, qq0, s1);
    lemma_mul_is_distributive_add(t16, qq1, s2);
    lemma_mul_is_distributive_add(t16, qq2, s3);
    lemma_mul_is_distributive_add(t16, qq3, s4);
    lemma_mul_is_distributive_add(t16, qq4, s5);
    lemma_mul_is_distributive_add(t16, qq5, s6);
    lemma_mul_is_distributive_add(t16, qq6, s7);
    lemma_mul_is_distributive_add(t16, qq7, s8);
    lemma_mul_is_distributive_add(t16, qq8, s9);
    lemma_mul_is_distributive_add(t17, qq0, s1);
    lemma_mul_is_distributive_add(t17, qq1, s2);
    lemma_mul_is_distributive_add(t17, qq2, s3);
    lemma_mul_is_distributive_add(t17, qq3, s4);
    lemma_mul_is_distributive_add(t17, qq4, s5);
    lemma_mul_is_distributive_add(t17, qq5, s6);
    lemma_mul_is_distributive_add(t17, qq6, s7);
    lemma_mul_is_distributive_add(t17, qq7, s8);
    lemma_mul_is_distributive_add(t17, qq8, s9);
    lemma_mul_is_distributive_add(t18, qq0, s1);
    lemma_mul_is_distributive_add(t18, qq1, s2);
    lemma_mul_is_distributive_add(t18, qq2, s3);
    lemma_mul_is_distributive_add(t18, qq3, s4);
    lemma_mul_is_distributive_add(t18, qq4, s5);
    lemma_mul_is_distributive_add(t18, qq5, s6);
    lemma_mul_is_distributive_add(t18, qq6, s7);
    lemma_mul_is_distributive_add(t18, qq7, s8);
    lemma_mul_is_distributive_add(t18, qq8, s9);
    lemma_mul_is_distributive_add(t19, qq0, s1);
    lemma_mul_is_distributive_add(t19, qq1, s2);
    lemma_mul_is_distributive_add(t19, qq2, s3);
    lemma_mul_is_distributive_add(t19, qq3, s4);
    lemma_mul_is_distributive_add(t19, qq4, s5);
    lemma_mul_is_distributive_add(t19, qq5, s6);
    lemma_mul_is_distributive_add(t19, qq6, s7);
    lemma_mul_is_distributive_add(t19, qq7, s8);
    lemma_mul_is_distributive_add(t19, qq8, s9);
    lemma_mul_is_distributive_add(t20, qq0, s1);
    lemma_mul_is_distributive_add(t20, qq1, s2);
    lemma_mul_is_distributive_add(t20, qq2, s3);
    lemma_mul_is_distributive_add(t20, qq3, s4);
    lemma_mul_is_distributive_add(t20, qq4, s5);
    lemma_mul_is_distributive_add(t20, qq5, s6);
    lemma_mul_is_distributive_add(t20, qq6, s7);
    lemma_mul_is_distributive_add(t20, qq7, s8);
    lemma_mul_is_distributive_add(t20, qq8, s9);
    lemma_mul_is_distributive_add(t21, qq0, s1);
    lemma_mul_is_distributive_add(t21, qq1, s2);
    lemma_mul_is_distributive_add(t21, qq2, s3);
    lemma_mul_is_distributive_add(t21, qq3, s4);
    lemma_mul_is_distributive_add(t21, qq4, s5);
    lemma_mul_is_distributive_add(t21, qq5, s6);
    lemma_mul_is_distributive_add(t21, qq6, s7);
    lemma_mul_is_distributive_add(t21, qq7, s8);
    lemma_mul_is_distributive_add(t21, qq8, s9);
    lemma_mul_is_distributive_add(t22, qq0, s1);
    lemma_mul_is_distributive_add(t22, qq1, s2);
    lemma_mul_is_distributive_add(t22, qq2, s3);
    lemma_mul_is_distributive_add(t22, qq3, s4);
    lemma_mul_is_distributive_add(t22, qq4, s5);
    lemma_mul_is_distributive_add(t22, qq5, s6);
    lemma_mul_is_distributive_add(t22, qq6, s7);
    lemma_mul_is_distributive_add(t22, qq7, s8);
    lemma_mul_is_distributive_add(t22, qq8, s9);
    lemma_mul_is_distributive_add(t23, qq0, s1);
    lemma_mul_is_distributive_add(t23, qq1, s2);
    lemma_mul_is_distributive_add(t23, qq2, s3);
    lemma_mul_is_distributive_add(t23, qq3, s4);
    lemma_mul_is_distributive_add(t23, qq4, s5);
    lemma_mul_is_distributive_add(t23, qq5, s6);
    lemma_mul_is_distributive_add(t23, qq6, s7);
    lemma_mul_is_distributive_add(t23, qq7, s8);
    lemma_mul_is_distributive_add(t23, qq8, s9);
    lemma_mul_is_distributive_add(t24, qq0, s1);
    lemma_mul_is_distributive_add(t24, qq1, s2);
    lemma_mul_is_distributive_add(t24, qq2, s3);
    lemma_mul_is_distributive_add(t24, qq3, s4);
    lemma_mul_is_distributive_add(t24, qq4, s5);
    lemma_mul_is_distributive_add(t24, qq5, s6);
    lemma_mul_is_distributive_add(t24, qq6, s7);
    lemma_mul_is_distributive_add(t24, qq7, s8);
    lemma_mul_is_distributive_add(t24, qq8, s9);
    lemma_mul_is_distributive_add(t25, qq0, s1);
    lemma_mul_is_distributive_add(t25, qq1, s2);
    lemma_mul_is_distributive_add(t25, qq2, s3);
    lemma_mul_is_distributive_add(t25, qq3, s4);
    lemma_mul_is_distributive_add(t25, qq4, s5);
    lemma_mul_is_distributive_add(t25, qq5, s6);
    lemma_mul_is_distributive_add(t25, qq6, s7);
    lemma_mul_is_distributive_add(t25, qq7, s8);
    lemma_mul_is_distributive_add(t25, qq8, s9);
    lemma_mul_is_distributive_add(t26, qq0, s1);
    lemma_mul_is_distributive_add(t26, qq1, s2);
    lemma_mul_is_distributive_add(t26, qq2, s3);
    lemma_mul_is_distributive_add(t26, qq3, s4);
    lemma_mul_is_distributive_add(t26, qq4, s5);
    lemma_mul_is_distributive_add(t26, qq5, s6);
    lemma_mul_is_distributive_add(t26, qq6, s7);
    lemma_mul_is_distributive_add(t26, qq7, s8);
    lemma_mul_is_distributive_add(t26, qq8, s9);
    lemma_mul_is_distributive_add(t27, qq0, s1);
    lemma_mul_is_distributive_add(t27, qq1, s2);
    lemma_mul_is_distributive_add(t27, qq2, s3);
    lemma_mul_is_distributive_add(t27, qq3, s4);
    lemma_mul_is_distributive_add(t27, qq4, s5);
    lemma_mul_is_distributive_add(t27, qq5, s6);
    lemma_mul_is_distributive_add(t27, qq6, s7);
    lemma_mul_is_distributive_add(t27, qq7, s8);
    lemma_mul_is_distributive_add(t27, qq8, s9);
    lemma_mul_is_distributive_add(t28, qq0, s1);
    lemma_mul_is_distributive_add(t28, qq1, s2);
    lemma_mul_is_distributive_add(t28, qq2, s3);
    lemma_mul_is_distributive_add(t28, qq3, s4);
    lemma_mul_is_distributive_add(t28, qq4, s5);
    lemma_mul_is_distributive_add(t28, qq5, s6);
    lemma_mul_is_distributive_add(t28, qq6, s7);
    lemma_mul_is_distributive_add(t28, qq7, s8);
    lemma_mul_is_distributive_add(t28, qq8, s9);
    lemma_mul_is_distributive_add(t29, qq0, s1);
    lemma_mul_is_distributive_add(t29, qq1, s2);
    lemma_mul_is_distributive_add(t29, qq2, s3);
    lemma_mul_is_distributive_add(t29, qq3, s4);
    lemma_mul_is_distributive_add(t29, qq4, s5);
    lemma_mul_is_distributive_add(t29, qq5, s6);
    lemma_mul_is_distributive_add(t29, qq6, s7);
    lemma_mul_is_distributive_add(t29, qq7, s8);
    lemma_mul_is_distributive_add(t29, qq8, s9);
    lemma_mul_is_distributive_add(t30, qq0, s1);
    lemma_mul_is_distributive_add(t30, qq1, s2);
    lemma_mul_is_distributive_add(t30, qq2, s3);
    lemma_mul_is_distributive_add(t30, qq3, s4);
    lemma_mul_is_distributive_add(t30, qq4, s5);
    lemma_mul_is_distributive_add(t30, qq5, s6);
    lemma_mul_is_distributive_add(t30, qq6, s7);
    lemma_mul_is_distributive_add(t30, qq7, s8);
    lemma_mul_is_distributive_add(t30, qq8, s9);
    lemma_mul_is_distributive_add(t31, qq0, s1);
    lemma_mul_is_distributive_add(t31, qq1, s2);
    lemma_mul_is_distributive_add(t31, qq2, s3);
    lemma_mul_is_distributive_add(t31, qq3, s4);
    lemma_mul_is_distributive_add(t31, qq4, s5);
    lemma_mul_is_distributive_add(t31, qq5, s6);
    lemma_mul_is_distributive_add(t31, qq6, s7);
    lemma_mul_is_distributive_add(t31, qq7, s8);
    lemma_mul_is_distributive_add(t31, qq8, s9);
    lemma_tm(p, 9, 4, 0, 0, 2, 2, 0, 0, 3, 2, 0, 0, 1, 1, 0, 0);
    assert(t0 * s0 == (27) * mn(p, 6, 0, 0, 3, 3, 0, 0));
    lemma_tm(p, 9, 4, 0, 0, 2, 2, 0, 0, 3, 1, 1, 0, 2, 0, 0, 0);
    assert(t0 * s1 == (27) * mn(p, 5, 1, 0, 4, 2, 0, 0));
    lemma_tm(p, 9, 4, 0, 0, 2, 2, 0, 0, -3, 1, 1, 0, 0, 0, 2, 0);
    assert(t0 * s2 == (-27) * mn(p, 5, 1, 0, 2, 2, 2, 0));
    lemma_tm(p, 9, 4, 0, 0, 2, 2, 0, 0, -6, 1, 0, 1, 0, 1, 1, 0);
    assert(t0 * s3 == (-54) * mn(p, 5, 0, 1, 2, 3, 1, 0));
    lemma_tm(p, 9, 4, 0, 0, 2, 2, 0, 0, 1, 0, 2, 0, 0, 1, 1, 0);
    assert(t0 * s4 == (9) * mn(p, 4, 2, 0, 2, 3, 1, 0));
    lemma_tm(p, 9, 4, 0, 0, 2, 2, 0, 0, -6, 0, 1, 1, 1, 0, 1, 0);
    assert(t0 * s5 == (-54) * mn(p, 4, 1, 1, 3, 2, 1, 0));
    lemma_tm(p, 9, 4, 0, 0, 2, 2, 0, 0, 1, 0, 1, 1, 0, 2, 0, 0);
    assert(t0 * s6 == (9) * mn(p, 4, 1, 1, 2, 4, 0, 0));
    lemma_tm(p, 9, 4, 0, 0, 2, 2, 0, 0, 3, 0, 1, 1, 0, 0, 2, 1);
    assert(t0 * s7 == (27) * mn(p, 4, 1, 1, 2, 2, 2, 1));
    lemma_tm(p, 9, 4, 0, 0, 2, 2, 0, 0, -3, 0, 0, 2, 1, 1, 0, 0);
    assert(t0 * s8 == (-27) * mn(p, 4, 0, 2, 3, 3, 0, 0));
    lemma_tm(p, 9, 4, 0, 0, 2, 2, 0, 0, 3, 0, 0, 2, 0, 1, 1, 1);
    assert(t0 * s9 == (27) * mn(p, 4, 0, 2, 2, 3, 1, 1));
    assert(t0 * q == (27) * mn(p, 6, 0, 0, 3, 3, 0, 0) + (27) * mn(p, 5, 1, 0, 4, 2, 0, 0) + (-27) * mn(p, 5, 1, 0, 2, 2, 2, 0) + (-54) * mn(p, 5, 0, 1, 2, 3, 1, 0) + (9) * mn(p, 4, 2, 0, 2, 3, 1, 0) + (-54) * mn(p, 4, 1, 1, 3, 2, 1, 0) + (9) * mn(p, 4, 1, 1, 2, 4, 0, 0) + (27) * mn(p, 4, 1, 1, 2, 2, 2, 1) + (-27) * mn(p, 4, 0, 2, 3, 3, 0, 0) + (27) * mn(p, 4, 0, 2, 2, 3, 1, 1));
    lemma_tm(p, 18, 3, 1, 0, 3, 1, 0, 0, 3, 2, 0, 0, 1, 1, 0, 0);
    assert(t1 * s0 == (54) * mn(p, 5, 1, 0, 4, 2, 0, 0));
    lemma_tm(p, 18, 3, 1, 0, 3, 1, 0, 0, 3, 1, 1, 0, 2, 0, 0, 0);
    assert(t1 * s1 == (54) * mn(p, 4, 2, 0, 5, 1, 0, 0));
    lemma_tm(p, 18, 3, 1, 0, 3, 1, 0, 0, -3, 1, 1, 0, 0, 0, 2, 0);
    assert(t1 * s2 == (-54) * mn(p, 4, 2, 0, 3, 1, 2, 0));
    lemma_tm(p, 18, 3, 1, 0, 3, 1, 0, 0, -6, 1, 0, 1, 0, 1, 1, 0);
    assert(t1 * s3 == (-108) * mn(p, 4, 1, 1, 3, 2, 1, 0));
    lemma_tm(p, 18, 3, 1, 0, 3, 1, 0, 0, 1, 0, 2, 0, 0, 1, 1, 0);
    assert(t1 * s4 == (18) * mn(p, 3, 3, 0, 3, 2, 1, 0));
    lemma_tm(p, 18, 3, 1, 0, 3, 1, 0, 0, -6, 0, 1, 1, 1, 0, 1, 0);
    assert(t1 * s5 == (-108) * mn(p, 3, 2, 1, 4, 1, 1, 0));
    lemma_tm(p, 18, 3, 1, 0, 3, 1, 0, 0, 1, 0, 1, 1, 0, 2, 0, 0);
    assert(t1 * s6 == (18) * mn(p, 3, 2, 1, 3, 3, 0, 0));
    lemma_tm(p, 18, 3, 1, 0, 3, 1, 0, 0, 3, 0, 1, 1, 0, 0, 2, 1);
    assert(t1 * s7 == (54) * mn(p, 3, 2, 1, 3, 1, 2, 1));
    lemma_tm(p, 18, 3, 1, 0, 3, 1, 0, 0, -3, 0, 0, 2, 1, 1, 0, 0);
    assert(t1 * s8 == (-54) * mn(p, 3, 1, 2, 4, 2, 0, 0));
    lemma_tm(p, 18, 3, 1, 0, 3, 1, 0, 0, 3, 0, 0, 2, 0, 1, 1, 1);
    assert(t1 * s9 == (54) * mn(p, 3, 1, 2, 3, 2, 1, 1));
    assert(t1 * q == (54) * mn(p, 5, 1, 0, 4, 2, 0, 0) + (54) * mn(p, 4, 2, 0, 5, 1, 0, 0) + (-54) * mn(p, 4, 2, 0, 3, 1, 2, 0) + (-108) * mn(p, 4, 1, 1, 3, 2, 1, 0) + (18) * mn(p, 3, 3, 0, 3, 2, 1, 0) + (-108) * mn(p, 3, 2, 1, 4, 1, 1, 0) + (18) * mn(p, 3, 2, 1, 3, 3, 0, 0) + (54) * mn(p, 3, 2, 1, 3, 1, 2, 1) + (-54) * mn(p, 3, 1, 2, 4, 2, 0, 0) + (54) * mn(p, 3, 1, 2, 3, 2, 1, 1));
    lemma_tm(p, -18, 3, 1, 0, 1, 1, 2, 0, 3, 2, 0, 0, 1, 1, 0, 0);
    assert(t2 * s0 == (-54) * mn(p, 5, 1, 0, 2, 2, 2, 0));
    lemma_tm(p, -18, 3, 1, 0, 1, 1, 2, 0, 3, 1, 1, 0, 2, 0, 0, 0);
    assert(t2 * s1 == (-54) * mn(p, 4, 2, 0, 3, 1, 2, 0));
    lemma_tm(p, -18, 3, 1, 0, 1, 1, 2, 0, -3, 1, 1, 0, 0, 0, 2, 0);
    assert(t2 * s2 == (54) * mn(p, 4, 2, 0, 1, 1, 4, 0));
    lemma_tm(p, -18, 3, 1, 0, 1, 1, 2, 0, -6, 1, 0, 1, 0, 1, 1, 0);
    assert(t2 * s3 == (108) * mn(p, 4, 1, 1, 1, 2, 3, 0));
    lemma_tm(p, -18, 3, 1, 0, 1, 1, 2, 0, 1, 0, 2, 0, 0, 1, 1, 0);
    assert(t2 * s4 == (-18) * mn(p, 3, 3, 0, 1, 2, 3, 0));
    lemma_tm(p, -18, 3, 1, 0, 1, 1, 2, 0, -6, 0, 1, 1, 1, 0, 1, 0);
    assert(t2 * s5 == (108) * mn(p, 3, 2, 1, 2, 1, 3, 0));
    lemma_tm(p, -18, 3, 1, 0, 1, 1, 2, 0, 1, 0, 1, 1, 0, 2, 0, 0);
    assert(t2 * s6 == (-18) * mn(p, 3, 2, 1, 1, 3, 2, 0));
    lemma_tm(p, -18, 3, 1, 0, 1, 1, 2, 0, 3, 0, 1, 1, 0, 0, 2, 1);
    assert(t2 * s7 == (-54) * mn(p, 3, 2, 1, 1, 1, 4, 1));
    lemma_tm(p, -18, 3, 1, 0, 1, 1, 2, 0, -3, 0, 0, 2, 1, 1, 0, 0);
    assert(t2 * s8 == (54) * mn(p, 3, 1, 2, 2, 2, 2, 0));
    lemma_tm(p, -18, 3, 1, 0, 1, 1, 2, 0, 3, 0, 0, 2, 0, 1, 1, 1);
    assert(t2 * s9 == (-54) * mn(p, 3, 1, 2, 1, 2, 3, 1));
    assert(t2 * q == (-54) * mn(p, 5, 1, 0, 2, 2, 2, 0) + (-54) * mn(p, 4, 2, 0, 3, 1, 2, 0) + (54) * mn(p, 4, 2, 0, 1, 1, 4, 0) + (108) * mn(p, 4, 1, 1, 1, 2, 3, 0) + (-18) * mn(p, 3, 3, 0, 1, 2, 3, 0) + (108) * mn(p, 3, 2, 1, 2, 1, 3, 0) + (-18) * mn(p, 3, 2, 1, 1, 3, 2, 0) + (-54) * mn(p, 3, 2, 1, 1, 1, 4, 1) + (54) * mn(p, 3, 1, 2, 2, 2, 2, 0) + (-54) * mn(p, 3, 1, 2, 1, 2, 3, 1));
    lemma_tm(p, -36, 3, 0, 1, 1, 2, 1, 0, 3, 2, 0, 0, 1, 1, 0, 0);
    assert(t3 * s0 == (-108) * mn(p, 5, 0, 1, 2, 3, 1, 0));
    lemma_tm(p, -36, 3, 0, 1, 1, 2, 1, 0, 3, 1, 1, 0, 2, 0, 0, 0);
    assert(t3 * s1 == (-108) * mn(p, 4, 1, 1, 3, 2, 1, 0));
    lemma_tm(p, -36, 3, 0, 1, 1, 2, 1, 0, -3, 1, 1, 0, 0, 0, 2, 0);
    assert(t3 * s2 == (108) * mn(p, 4, 1, 1, 1, 2, 3, 0));
    lemma_tm(p, -36, 3, 0, 1, 1, 2, 1, 0, -6, 1, 0, 1, 0, 1, 1, 0);
    assert(t3 * s3 == (216) * mn(p, 4, 0, 2, 1, 3, 2, 0));
    lemma_tm(p, -36, 3, 0, 1, 1, 2, 1, 0, 1, 0, 2, 0, 0, 1, 1, 0);
    assert(t3 * s4 == (-36) * mn(p, 3, 2, 1, 1, 3, 2, 0));
    lemma_tm(p, -36, 3, 0, 1, 1, 2, 1, 0, -6, 0, 1, 1, 1, 0, 1, 0);
    assert(t3 * s5 == (216) * mn(p, 3, 1, 2, 2, 2, 2, 0));
    lemma_tm(p, -36, 3, 0, 1, 1, 2, 1, 0, 1, 0, 1, 1, 0, 2, 0, 0);
    assert(t3 * s6 == (-36) * mn(p, 3, 1, 2, 1, 4, 1, 0));
    lemma_tm(p, -36, 3, 0, 1, 1, 2, 1, 0, 3, 0, 1, 1, 0, 0, 2, 1);
    assert(t3 * s7 == (-108) * mn(p, 3, 1, 2, 1, 2, 3, 1));
    lemma_tm(p, -36, 3, 0, 1, 1, 2, 1, 0, -3, 0, 0, 2, 1, 1, 0, 0);
    assert(t3 * s8 == (108) * mn(p, 3, 0, 3, 2, 3, 1, 0));
    lemma_tm(p, -36, 3, 0, 1, 1, 2, 1, 0, 3, 0, 0, 2, 0, 1, 1, 1);
    assert(t3 * s9 == (-108) * mn(p, 3, 0, 3, 1, 3, 2, 1));
    assert(t3 * q == (-108) * mn(p, 5, 0, 1, 2, 3, 1, 0) + (-108) * mn(p, 4, 1, 1, 3, 2, 1, 0) + (108) * mn(p, 4, 1, 1, 1, 2, 3, 0) + (216) * mn(p, 4, 0, 2, 1, 3, 2, 0) + (-36) * mn(p, 3, 2, 1, 1, 3, 2, 0) + (216) * mn(p, 3, 1, 2, 2, 2, 2, 0) + (-36) * mn(p, 3, 1, 2, 1, 4, 1, 0) + (-108) * mn(p, 3, 1, 2, 1, 2, 3, 1) + (108) * mn(p, 3, 0, 3, 2, 3, 1, 0) + (-108) * mn(p, 3, 0, 3, 1, 3, 2, 1));
    lemma_tm(p, 9, 2, 2, 0, 4, 0, 0, 0, 3, 2, 0, 0, 1, 1, 0, 0);
    assert(t4 * s0 == (27) * mn(p, 4, 2, 0, 5, 1, 0, 0));
    lemma_tm(p, 9, 2, 2, 0, 4, 0, 0, 0, 3, 1, 1, 0, 2, 0, 0, 0);
    assert(t4 * s1 == (27) * mn(p, 3, 3, 0, 6, 0, 0, 0));
    lemma_tm(p, 9, 2, 2, 0, 4, 0, 0, 0, -3, 1, 1, 0, 0, 0, 2, 0);
    assert(t4 * s2 == (-27) * mn(p, 3, 3, 0, 4, 0, 2, 0));
    lemma_tm(p, 9, 2, 2, 0, 4, 0, 0, 0, -6, 1, 0, 1, 0, 1, 1, 0);
    assert(t4 * s3 == (-54) * mn(p, 3, 2, 1, 4, 1, 1, 0));
    lemma_tm(p, 9, 2, 2, 0, 4, 0, 0, 0, 1, 0, 2, 0, 0, 1, 1, 0);
    assert(t4 * s4 == (9) * mn(p, 2, 4, 0, 4, 1, 1, 0));
    lemma_tm(p, 9, 2, 2, 0, 4, 0, 0, 0, -6, 0, 1, 1, 1, 0, 1, 0);
    assert(t4 * s5 == (-54) * mn(p, 2, 3, 1, 5, 0, 1, 0));
    lemma_tm(p, 9, 2, 2, 0, 4, 0, 0, 0, 1, 0, 1, 1, 0, 2, 0, 0);
    assert(t4 * s6 == (9) * mn(p, 2, 3, 1, 4, 2, 0, 0));
    lemma_tm(p, 9, 2, 2, 0, 4, 0, 0, 0, 3, 0, 1, 1, 0, 0, 2, 1);
    assert(t4 * s7 == (27) * mn(p, 2, 3, 1, 4, 0, 2, 1));
    lemma_tm(p, 9, 2, 2, 0, 4, 0, 0, 0, -3, 0, 0, 2, 1, 1, 0, 0);
    assert(t4 * s8 == (-27) * mn(p, 2, 2, 2, 5, 1, 0, 0));
    lemma_tm(p, 9, 2, 2, 0, 4, 0, 0, 0, 3, 0, 0, 2, 0, 1, 1, 1);
    assert(t4 * s9 == (27) * mn(p, 2, 2, 2, 4, 1, 1, 1));
    assert(t4 * q == (27) * mn(p, 4, 2, 0, 5, 1, 0, 0) + (27) * mn(p, 3, 3, 0, 6, 0, 0, 0) + (-27) * mn(p, 3, 3, 0, 4, 0, 2, 0) + (-54) * mn(p, 3, 2, 1, 4, 1, 1, 0) + (9) * mn(p, 2, 4, 0, 4, 1, 1, 0) + (-54) * mn(p, 2, 3, 1, 5, 0, 1, 0) + (9) * mn(p, 2, 3, 1, 4, 2, 0, 0) + (27) * mn(p, 2, 3, 1, 4, 0, 2, 1) + (-27) * mn(p, 2, 2, 2, 5, 1, 0, 0) + (27) * mn(p, 2, 2, 2, 4, 1, 1, 1));
    lemma_tm(p, -18, 2, 2, 0, 2, 0, 2, 0, 3, 2, 0, 0, 1, 1, 0, 0);
    assert(t5 * s0 == (-54) * mn(p, 4, 2, 0, 3, 1, 2, 0));
    lemma_tm(p, -18, 2, 2, 0, 2, 0, 2, 0, 3, 1, 1, 0, 2, 0, 0, 0);
    assert(t5 * s1 == (-54) * mn(p, 3, 3, 0, 4, 0, 2, 0));
    lemma_tm(p, -18, 2, 2, 0, 2, 0, 2, 0, -3, 1, 1, 0, 0, 0, 2, 0);
    assert(t5 * s2 == (54) * mn(p, 3, 3, 0, 2, 0, 4, 0));
    lemma_tm(p, -18, 2, 2, 0, 2, 0, 2, 0, -6, 1, 0, 1, 0, 1, 1, 0);
    assert(t5 * s3 == (108) * mn(p, 3, 2, 1, 2, 1, 3, 0));
    lemma_tm(p, -18, 2, 2, 0, 2, 0, 2, 0, 1, 0, 2, 0, 0, 1, 1, 0);
    assert(t5 * s4 == (-18) * mn(p, 2, 4, 0, 2, 1, 3, 0));
    lemma_tm(p, -18, 2, 2, 0, 2, 0, 2, 0, -6, 0, 1, 1, 1, 0, 1, 0);
    assert(t5 * s5 == (108) * mn(p, 2, 3, 1, 3, 0, 3, 0));
    lemma_tm(p, -18, 2, 2, 0, 2, 0, 2, 0, 1, 0, 1, 1, 0, 2, 0, 0);
    assert(t5 * s6 == (-18) * mn(p, 2, 3, 1, 2, 2, 2, 0));
    lemma_tm(p, -18, 2, 2, 0, 2, 0, 2, 0, 3, 0, 1, 1, 0, 0, 2, 1);
    assert(t5 * s7 == (-54) * mn(p, 2, 3, 1, 2, 0, 4, 1));
    lemma_tm(p, -18, 2, 2, 0, 2, 0, 2, 0, -3, 0, 0, 2, 1, 1, 0, 0);
    assert(t5 * s8 == (54) * mn(p, 2, 2, 2, 3, 1, 2, 0));
    lemma_tm(p, -18, 2, 2, 0, 2, 0, 2, 0, 3, 0, 0, 2, 0, 1, 1, 1);
    assert(t5 * s9 == (-54) * mn(p, 2, 2, 2, 2, 1, 3, 1));
    assert(t5 * q == (-54) * mn(p, 4, 2, 0, 3, 1, 2, 0) + (-54) * mn(p, 3, 3, 0, 4, 0, 2, 0) + (54) * mn(p, 3, 3, 0, 2, 0, 4, 0) + (108) * mn(p, 3, 2, 1, 2, 1, 3, 0) + (-18) * mn(p, 2, 4, 0, 2, 1, 3, 0) + (108) * mn(p, 2, 3, 1, 3, 0, 3, 0) + (-18) * mn(p, 2, 3, 1, 2, 2, 2, 0) + (-54) * mn(p, 2, 3, 1, 2, 0, 4, 1) + (54) * mn(p, 2, 2, 2, 3, 1, 2, 0) + (-54) * mn(p, 2, 2, 2, 2, 1, 3, 1));
    lemma_tm(p, 6, 2, 2, 0, 1, 2, 1, 0, 3, 2, 0, 0, 1, 1, 0, 0);
    assert(t6 * s0 == (18) * mn(p, 4, 2, 0, 2, 3, 1, 0));
    lemma_tm(p, 6, 2, 2, 0, 1, 2, 1, 0, 3, 1, 1, 0, 2, 0, 0, 0);
    assert(t6 * s1 == (18) * mn(p, 3, 3, 0, 3, 2, 1, 0));
    lemma_tm(p, 6, 2, 2, 0, 1, 2, 1, 0, -3, 1, 1, 0, 0, 0, 2, 0);
    assert(t6 * s2 == (-18) * mn(p, 3, 3, 0, 1, 2, 3, 0));
    lemma_tm(p, 6, 2, 2, 0, 1, 2, 1, 0, -6, 1, 0, 1, 0, 1, 1, 0);
    assert(t6 * s3 == (-36) * mn(p, 3, 2, 1, 1, 3, 2, 0));
    lemma_tm(p, 6, 2, 2, 0, 1, 2, 1, 0, 1, 0, 2, 0, 0, 1, 1, 0);
    assert(t6 * s4 == (6) * mn(p, 2, 4, 0, 1, 3, 2, 0));
    lemma_tm(p, 6, 2, 2, 0, 1, 2, 1, 0, -6, 0, 1, 1, 1, 0, 1, 0);
    assert(t6 * s5 == (-36) * mn(p, 2, 3, 1, 2, 2, 2, 0));
    lemma_tm(p, 6, 2, 2, 0, 1, 2, 1, 0, 1, 0, 1, 1, 0, 2, 0, 0);
    assert(t6 * s6 == (6) * mn(p, 2, 3, 1, 1, 4, 1, 0));
    lemma_tm(p, 6, 2, 2, 0, 1, 2, 1, 0, 3, 0, 1, 1, 0, 0, 2, 1);
    assert(t6 * s7 == (18) * mn(p, 2, 3, 1, 1, 2, 3, 1));
    lemma_tm(p, 6, 2, 2, 0, 1, 2, 1, 0, -3, 0, 0, 2, 1, 1, 0, 0);
    assert(t6 * s8 == (-18) * mn(p, 2, 2, 2, 2, 3, 1, 0));
    lemma_tm(p, 6, 2, 2, 0, 1, 2, 1, 0, 3, 0, 0, 2, 0, 1, 1, 1);
    assert(t6 * s9 == (18) * mn(p, 2, 2, 2, 1, 3, 2, 1));
    assert(t6 * q == (18) * mn(p, 4, 2, 0, 2, 3, 1, 0) + (18) * mn(p, 3, 3, 0, 3, 2, 1, 0) + (-18) * mn(p, 3, 3, 0, 1, 2, 3, 0) + (-36) * mn(p, 3, 2, 1, 1, 3, 2, 0) + (6) * mn(p, 2, 4, 0, 1, 3, 2, 0) + (-36) * mn(p, 2, 3, 1, 2, 2, 2, 0) + (6) * mn(p, 2, 3, 1, 1, 4, 1, 0) + (18) * mn(p, 2, 3, 1, 1, 2, 3, 1) + (-18) * mn(p, 2, 2, 2, 2, 3, 1, 0) + (18) * mn(p, 2, 2, 2, 1, 3, 2, 1));
    lemma_tm(p, 9, 2, 2, 0, 0, 0, 4, 0, 3, 2, 0, 0, 1, 1, 0, 0);
    assert(t7 * s0 == (27) * mn(p, 4, 2, 0, 1, 1, 4, 0));
    lemma_tm(p, 9, 2, 2, 0, 0, 0, 4, 0, 3, 1, 1, 0, 2, 0, 0, 0);
    assert(t7 * s1 == (27) * mn(p, 3, 3, 0, 2, 0, 4, 0));
    lemma_tm(p, 9, 2, 2, 0, 0, 0, 4, 0, -3, 1, 1, 0, 0, 0, 2, 0);
    assert(t7 * s2 == (-27) * mn(p, 3, 3, 0, 0, 0, 6, 0));
    lemma_tm(p, 9, 2, 2, 0, 0, 0, 4, 0, -6, 1, 0, 1, 0, 1, 1, 0);
    assert(t7 * s3 == (-54) * mn(p, 3, 2, 1, 0, 1, 5, 0));
    lemma_tm(p, 9, 2, 2, 0, 0, 0, 4, 0, 1, 0, 2, 0, 0, 1, 1, 0);
    assert(t7 * s4 == (9) * mn(p, 2, 4, 0, 0, 1, 5, 0));
    lemma_tm(p, 9, 2, 2, 0, 0, 0, 4, 0, -6, 0, 1, 1, 1, 0, 1, 0);
    assert(t7 * s5 == (-54) * mn(p, 2, 3, 1, 1, 0, 5, 0));
    lemma_tm(p, 9, 2, 2, 0, 0, 0, 4, 0, 1, 0, 1, 1, 0, 2, 0, 0);
    assert(t7 * s6 == (9) * mn(p, 2, 3, 1, 0, 2, 4, 0));
    lemma_tm(p, 9, 2, 2, 0, 0, 0, 4, 0, 3, 0, 1, 1, 0, 0, 2, 1);
    assert(t7 * s7 == (27) * mn(p, 2, 3, 1, 0, 0, 6, 1));
    lemma_tm(p, 9, 2, 2, 0, 0, 0, 4, 0, -3, 0, 0, 2, 1, 1, 0, 0);
    assert(t7 * s8 == (-27) * mn(p, 2, 2, 2, 1, 1, 4, 0));
    lemma_tm(p, 9, 2, 2, 0, 0, 0, 4, 0, 3, 0, 0, 2, 0, 1, 1, 1);
    assert(t7 * s9 == (27) * mn(p, 2, 2, 2, 0, 1, 5, 1));
    assert(t7 * q == (27) * mn(p, 4, 2, 0, 1, 1, 4, 0) + (27) * mn(p, 3, 3, 0, 2, 0, 4, 0) + (-27) * mn(p, 3, 3, 0, 0, 0, 6, 0) + (-54) * mn(p, 3, 2, 1, 0, 1, 5, 0) + (9) * mn(p, 2, 4, 0, 0, 1, 5, 0) + (-54) * mn(p, 2, 3, 1, 1, 0, 5, 0) + (9) * mn(p, 2, 3, 1, 0, 2, 4, 0) + (27) * mn(p, 2, 3, 1, 0, 0, 6, 1) + (-27) * mn(p, 2, 2, 2, 1, 1, 4, 0) + (27) * mn(p, 2, 2, 2, 0, 1, 5, 1));
    lemma_tm(p, -72, 2, 1, 1, 2, 1, 1, 0, 3, 2, 0, 0, 1, 1, 0, 0);
    assert(t8 * s0 == (-216) * mn(p, 4, 1, 1, 3, 2, 1, 0));
    lemma_tm(p, -72, 2, 1, 1, 2, 1, 1, 0, 3, 1, 1, 0, 2, 0, 0, 0);
    assert(t8 * s1 == (-216) * mn(p, 3, 2, 1, 4, 1, 1, 0));
    lemma_tm(p, -72, 2, 1, 1, 2, 1, 1, 0, -3, 1, 1, 0, 0, 0, 2, 0);
    assert(t8 * s2 == (216) * mn(p, 3, 2, 1, 2, 1, 3, 0));
    lemma_tm(p, -72, 2, 1, 1, 2, 1, 1, 0, -6, 1, 0, 1, 0, 1, 1, 0);
    assert(t8 * s3 == (432) * mn(p, 3, 1, 2, 2, 2, 2, 0));
    lemma_tm(p, -72, 2, 1, 1, 2, 1, 1, 0, 1, 0, 2, 0, 0, 1, 1, 0);
    assert(t8 * s4 == (-72) * mn(p, 2, 3, 1, 2, 2, 2, 0));
    lemma_tm(p, -72, 2, 1, 1, 2, 1, 1, 0, -6, 0, 1, 1, 1, 0, 1, 0);
    assert(t8 * s5 == (432) * mn(p, 2, 2, 2, 3, 1, 2, 0));
    lemma_tm(p, -72, 2, 1, 1, 2, 1, 1, 0, 1, 0, 1, 1, 0, 2, 0, 0);
    assert(t8 * s6 == (-72) * mn(p, 2, 2, 2, 2, 3, 1, 0));
    lemma_tm(p, -72, 2, 1, 1, 2, 1, 1, 0, 3, 0, 1, 1, 0, 0, 2, 1);
    assert(t8 * s7 == (-216) * mn(p, 2, 2, 2, 2, 1, 3, 1));
    lemma_tm(p, -72, 2, 1, 1, 2, 1, 1, 0, -3, 0, 0, 2, 1, 1, 0, 0);
    assert(t8 * s8 == (216) * mn(p, 2, 1, 3, 3, 2, 1, 0));
    lemma_tm(p, -72, 2, 1, 1, 2, 1, 1, 0, 3, 0, 0, 2, 0, 1, 1, 1);
    assert(t8 * s9 == (-216) * mn(p, 2, 1, 3, 2, 2, 2, 1));
    assert(t8 * q == (-216) * mn(p, 4, 1, 1, 3, 2, 1, 0) + (-216) * mn(p, 3, 2, 1, 4, 1, 1, 0) + (216) * mn(p, 3, 2, 1, 2, 1, 3, 0) + (432) * mn(p, 3, 1, 2, 2, 2, 2, 0) + (-72) * mn(p, 2, 3, 1, 2, 2, 2, 0) + (432) * mn(p, 2, 2, 2, 3, 1, 2, 0) + (-72) * mn(p, 2, 2, 2, 2, 3, 1, 0) + (-216) * mn(p, 2, 2, 2, 2, 1, 3, 1) + (216) * mn(p, 2, 1, 3, 3, 2, 1, 0) + (-216) * mn(p, 2, 1, 3, 2, 2, 2, 1));
    lemma_tm(p, 6, 2, 1, 1, 1, 3, 0, 0, 3, 2, 0, 0, 1, 1, 0, 0);
    assert(t9 * s0 == (18) * mn(p, 4, 1, 1, 2, 4, 0, 0));
    lemma_tm(p, 6, 2, 1, 1, 1, 3, 0, 0, 3, 1, 1, 0, 2, 0, 0, 0);
    assert(t9 * s1 == (18) * mn(p, 3, 2, 1, 3, 3, 0, 0));
    lemma_tm(p, 6, 2, 1, 1, 1, 3, 0, 0, -3, 1, 1, 0, 0, 0, 2, 0);
    assert(t9 * s2 == (-18) * mn(p, 3, 2, 1, 1, 3, 2, 0));
    lemma_tm(p, 6, 2, 1, 1, 1, 3, 0, 0, -6, 1, 0, 1, 0, 1, 1, 0);
    assert(t9 * s3 == (-36) * mn(p, 3, 1, 2, 1, 4, 1, 0));
    lemma_tm(p, 6, 2, 1, 1, 1, 3, 0, 0, 1, 0, 2, 0, 0, 1, 1, 0);
    assert(t9 * s4 == (6) * mn(p, 2, 3, 1, 1, 4, 1, 0));
    lemma_tm(p, 6, 2, 1, 1, 1, 3, 0, 0, -6, 0, 1, 1, 1, 0, 1, 0);
    assert(t9 * s5 == (-36) * mn(p, 2, 2, 2, 2, 3, 1, 0));
    lemma_tm(p, 6, 2, 1, 1, 1, 3, 0, 0, 1, 0, 1, 1, 0, 2, 0, 0);
    assert(t9 * s6 == (6) * mn(p, 2, 2, 2, 1, 5, 0, 0));
    lemma_tm(p, 6, 2, 1, 1, 1, 3, 0, 0, 3, 0, 1, 1, 0, 0, 2, 1);
    assert(t9 * s7 == (18) * mn(p, 2, 2, 2, 1, 3, 2, 1));
    lemma_tm(p, 6, 2, 1, 1, 1, 3, 0, 0, -3, 0, 0, 2, 1, 1, 0, 0);
    assert(t9 * s8 == (-18) * mn(p, 2, 1, 3, 2, 4, 0, 0));
    lemma_tm(p, 6, 2, 1, 1, 1, 3, 0, 0, 3, 0, 0, 2, 0, 1, 1, 1);
    assert(t9 * s9 == (18) * mn(p, 2, 1, 3, 1, 4, 1, 1));
    assert(t9 * q == (18) * mn(p, 4, 1, 1, 2, 4, 0, 0) + (18) * mn(p, 3, 2, 1, 3, 3, 0, 0) + (-18) * mn(p, 3, 2, 1, 1, 3, 2, 0) + (-36) * mn(p, 3, 1, 2, 1, 4, 1, 0) + (6) * mn(p, 2, 3, 1, 1, 4, 1, 0) + (-36) * mn(p, 2, 2, 2, 2, 3, 1, 0) + (6) * mn(p, 2, 2, 2, 1, 5, 0, 0) + (18) * mn(p, 2, 2, 2, 1, 3, 2, 1) + (-18) * mn(p, 2, 1, 3, 2, 4, 0, 0) + (18) * mn(p, 2, 1, 3, 1, 4, 1, 1));
    lemma_tm(p, 18, 2, 1, 1, 1, 1, 2, 1, 3, 2, 0, 0, 1, 1, 0, 0);
    assert(t10 * s0 == (54) * mn(p, 4, 1, 1, 2, 2, 2, 1));
    lemma_tm(p, 18, 2, 1, 1, 1, 1, 2, 1, 3, 1, 1, 0, 2, 0, 0, 0);
    assert(t10 * s1 == (54) * mn(p, 3, 2, 1, 3, 1, 2, 1));
    lemma_tm(p, 18, 2, 1, 1, 1, 1, 2, 1, -3, 1, 1, 0, 0, 0, 2, 0);
    assert(t10 * s2 == (-54) * mn(p, 3, 2, 1, 1, 1, 4, 1));
    lemma_tm(p, 18, 2, 1, 1, 1, 1, 2, 1, -6, 1, 0, 1, 0, 1, 1, 0);
    assert(t10 * s3 == (-108) * mn(p, 3, 1, 2, 1, 2, 3, 1));
    lemma_tm(p, 18, 2, 1, 1, 1, 1, 2, 1, 1, 0, 2, 0, 0, 1, 1, 0);
    assert(t10 * s4 == (18) * mn(p, 2, 3, 1, 1, 2, 3, 1));
    lemma_tm(p, 18, 2, 1, 1, 1, 1, 2, 1, -6, 0, 1, 1, 1, 0, 1, 0);
    assert(t10 * s5 == (-108) * mn(p, 2, 2, 2, 2, 1, 3, 1));
    lemma_tm(p, 18, 2, 1, 1, 1, 1, 2, 1, 1, 0, 1, 1, 0, 2, 0, 0);
    assert(t10 * s6 == (18) * mn(p, 2, 2, 2, 1, 3, 2, 1));
    lemma_tm(p, 18, 2, 1, 1, 1, 1, 2, 1, 3, 0, 1, 1, 0, 0, 2, 1);
    assert(t10 * s7 == (54) * mn(p, 2, 2, 2, 1, 1, 4, 2));
    lemma_tm(p, 18, 2, 1, 1, 1, 1, 2, 1, -3, 0, 0, 2, 1, 1, 0, 0);
    assert(t10 * s8 == (-54) * mn(p, 2, 1, 3, 2, 2, 2, 1));
    lemma_tm(p, 18, 2, 1, 1, 1, 1, 2, 1, 3, 0, 0, 2, 0, 1, 1, 1);
    assert(t10 * s9 == (54) * mn(p, 2, 1, 3, 1, 2, 3, 2));
    assert(t10 * q == (54) * mn(p, 4, 1, 1, 2, 2, 2, 1) + (54) * mn(p, 3, 2, 1, 3, 1, 2, 1) + (-54) * mn(p, 3, 2, 1, 1, 1, 4, 1) + (-108) * mn(p, 3, 1, 2, 1, 2, 3, 1) + (18) * mn(p, 2, 3, 1, 1, 2, 3, 1) + (-108) * mn(p, 2, 2, 2, 2, 1, 3, 1) + (18) * mn(p, 2, 2, 2, 1, 3, 2, 1) + (54) * mn(p, 2, 2, 2, 1, 1, 4, 2) + (-54) * mn(p, 2, 1, 3, 2, 2, 2, 1) + (54) * mn(p, 2, 1, 3, 1, 2, 3, 2));
    lemma_tm(p, 36, 2, 1, 1, 0, 1, 3, 0, 3, 2, 0, 0, 1, 1, 0, 0);
    assert(t11 * s0 == (108) * mn(p, 4, 1, 1, 1, 2, 3, 0));
    lemma_tm(p, 36, 2, 1, 1, 0, 1, 3, 0, 3, 1, 1, 0, 2, 0, 0, 0);
    assert(t11 * s1 == (108) * mn(p, 3, 2, 1, 2, 1, 3, 0));
    lemma_tm(p, 36, 2, 1, 1, 0, 1, 3, 0, -3, 1, 1, 0, 0, 0, 2, 0);
    assert(t11 * s2 == (-108) * mn(p, 3, 2, 1, 0, 1, 5, 0));
    lemma_tm(p, 36, 2, 1, 1, 0, 1, 3, 0, -6, 1, 0, 1, 0, 1, 1, 0);
    assert(t11 * s3 == (-216) * mn(p, 3, 1, 2, 0, 2, 4, 0));
    lemma_tm(p, 36, 2, 1, 1, 0, 1, 3, 0, 1, 0, 2, 0, 0, 1, 1, 0);
    assert(t11 * s4 == (36) * mn(p, 2, 3, 1, 0, 2, 4, 0));
    lemma_tm(p, 36, 2, 1, 1, 0, 1, 3, 0, -6, 0, 1, 1, 1, 0, 1, 0);
    assert(t11 * s5 == (-216) * mn(p, 2, 2, 2, 1, 1, 4, 0));
    lemma_tm(p, 36, 2, 1, 1, 0, 1, 3, 0, 1, 0, 1, 1, 0, 2, 0, 0);
    assert(t11 * s6 == (36) * mn(p, 2, 2, 2, 0, 3, 3, 0));
    lemma_tm(p, 36, 2, 1, 1, 0, 1, 3, 0, 3, 0, 1, 1, 0, 0, 2, 1);
    assert(t11 * s7 == (108) * mn(p, 2, 2, 2, 0, 1, 5, 1));
    lemma_tm(p, 36, 2, 1, 1, 0, 1, 3, 0, -3, 0, 0, 2, 1, 1, 0, 0);
    assert(t11 * s8 == (-108) * mn(p, 2, 1, 3, 1, 2, 3, 0));
    lemma_tm(p, 36, 2, 1, 1, 0, 1, 3, 0, 3, 0, 0, 2, 0, 1, 1, 1);
    assert(t11 * s9 == (108) * mn(p, 2, 1, 3, 0, 2, 4, 1));
    assert(t11 * q == (108) * mn(p, 4, 1, 1, 1, 2, 3, 0) + (108) * mn(p, 3, 2, 1, 2, 1, 3, 0) + (-108) * mn(p, 3, 2, 1, 0, 1, 5, 0) + (-216) * mn(p, 3, 1, 2, 0, 2, 4, 0) + (36) * mn(p, 2, 3, 1, 0, 2, 4, 0) + (-216) * mn(p, 2, 2, 2, 1, 1, 4, 0) + (36) * mn(p, 2, 2, 2, 0, 3, 3, 0) + (108) * mn(p, 2, 2, 2, 0, 1, 5, 1) + (-108) * mn(p, 2, 1, 3, 1, 2, 3, 0) + (108) * mn(p, 2, 1, 3, 0, 2, 4, 1));
    lemma_tm(p, -18, 2, 0, 2, 2, 2, 0, 0, 3, 2, 0, 0, 1, 1, 0, 0);
    assert(t12 * s0 == (-54) * mn(p, 4, 0, 2, 3, 3, 0, 0));
    lemma_tm(p, -18, 2, 0, 2, 2, 2, 0, 0, 3, 1, 1, 0, 2, 0, 0, 0);
    assert(t12 * s1 == (-54) * mn(p, 3, 1, 2, 4, 2, 0, 0));
    lemma_tm(p, -18, 2, 0, 2, 2, 2, 0, 0, -3, 1, 1, 0, 0, 0, 2, 0);
    assert(t12 * s2 == (54) * mn(p, 3, 1, 2, 2, 2, 2, 0));
    lemma_tm(p, -18, 2, 0, 2, 2, 2, 0, 0, -6, 1, 0, 1, 0, 1, 1, 0);
    assert(t12 * s3 == (108) * mn(p, 3, 0, 3, 2, 3, 1, 0));
    lemma_tm(p, -18, 2, 0, 2, 2, 2, 0, 0, 1, 0, 2, 0, 0, 1, 1, 0);
    assert(t12 * s4 == (-18) * mn(p, 2, 2, 2, 2, 3, 1, 0));
    lemma_tm(p, -18, 2, 0, 2, 2, 2, 0, 0, -6, 0, 1, 1, 1, 0, 1, 0);
    assert(t12 * s5 == (108) * mn(p, 2, 1, 3, 3, 2, 1, 0));
    lemma_tm(p, -18, 2, 0, 2, 2, 2, 0, 0, 1, 0, 1, 1, 0, 2, 0, 0);
    assert(t12 * s6 == (-18) * mn(p, 2, 1, 3, 2, 4, 0, 0));
    lemma_tm(p, -18, 2, 0, 2, 2, 2, 0, 0, 3, 0, 1, 1, 0, 0, 2, 1);
    assert(t12 * s7 == (-54) * mn(p, 2, 1, 3, 2, 2, 2, 1));
    lemma_tm(p, -18, 2, 0, 2, 2, 2, 0, 0, -3, 0, 0, 2, 1, 1, 0, 0);
    assert(t12 * s8 == (54) * mn(p, 2, 0, 4, 3, 3, 0, 0));
    lemma_tm(p, -18, 2, 0, 2, 2, 2, 0, 0, 3, 0, 0, 2, 0, 1, 1, 1);
    assert(t12 * s9 == (-54) * mn(p, 2, 0, 4, 2, 3, 1, 1));
    assert(t12 * q == (-54) * mn(p, 4, 0, 2, 3, 3, 0, 0) + (-54) * mn(p, 3, 1, 2, 4, 2, 0, 0) + (54) * mn(p, 3, 1, 2, 2, 2, 2, 0) + (108) * mn(p, 3, 0, 3, 2, 3, 1, 0) + (-18) * mn(p, 2, 2, 2, 2, 3, 1, 0) + (108) * mn(p, 2, 1, 3, 3, 2, 1, 0) + (-18) * mn(p, 2, 1, 3, 2, 4, 0, 0) + (-54) * mn(p, 2, 1, 3, 2, 2, 2, 1) + (54) * mn(p, 2, 0, 4, 3, 3, 0, 0) + (-54) * mn(p, 2, 0, 4, 2, 3, 1, 1));
    lemma_tm(p, 18, 2, 0, 2, 1, 2, 1, 1, 3, 2, 0, 0, 1, 1, 0, 0);
    assert(t13 * s0 == (54) * mn(p, 4, 0, 2, 2, 3, 1, 1));
    lemma_tm(p, 18, 2, 0, 2, 1, 2, 1, 1, 3, 1, 1, 0, 2, 0, 0, 0);
    assert(t13 * s1 == (54) * mn(p, 3, 1, 2, 3, 2, 1, 1));
    lemma_tm(p, 18, 2, 0, 2, 1, 2, 1, 1, -3, 1, 1, 0, 0, 0, 2, 0);
    assert(t13 * s2 == (-54) * mn(p, 3, 1, 2, 1, 2, 3, 1));
    lemma_tm(p, 18, 2, 0, 2, 1, 2, 1, 1, -6, 1, 0, 1, 0, 1, 1, 0);
    assert(t13 * s3 == (-108) * mn(p, 3, 0, 3, 1, 3, 2, 1));
    lemma_tm(p, 18, 2, 0, 2, 1, 2, 1, 1, 1, 0, 2, 0, 0, 1, 1, 0);
    assert(t13 * s4 == (18) * mn(p, 2, 2, 2, 1, 3, 2, 1));
    lemma_tm(p, 18, 2, 0, 2, 1, 2, 1, 1, -6, 0, 1, 1, 1, 0, 1, 0);
    assert(t13 * s5 == (-108) * mn(p, 2, 1, 3, 2, 2, 2, 1));
    lemma_tm(p, 18, 2, 0, 2, 1, 2, 1, 1, 1, 0, 1, 1, 0, 2, 0, 0);
    assert(t13 * s6 == (18) * mn(p, 2, 1, 3, 1, 4, 1, 1));
    lemma_tm(p, 18, 2, 0, 2, 1, 2, 1, 1, 3, 0, 1, 1, 0, 0, 2, 1);
    assert(t13 * s7 == (54) * mn(p, 2, 1, 3, 1, 2, 3, 2));
    lemma_tm(p, 18, 2, 0, 2, 1, 2, 1, 1, -3, 0, 0, 2, 1, 1, 0, 0);
    assert(t13 * s8 == (-54) * mn(p, 2, 0, 4, 2, 3, 1, 1));
    lemma_tm(p, 18, 2, 0, 2, 1, 2, 1, 1, 3, 0, 0, 2, 0, 1, 1, 1);
    assert(t13 * s9 == (54) * mn(p, 2, 0, 4, 1, 3, 2, 2));
    assert(t13 * q == (54) * mn(p, 4, 0, 2, 2, 3, 1, 1) + (54) * mn(p, 3, 1, 2, 3, 2, 1, 1) + (-54) * mn(p, 3, 1, 2, 1, 2, 3, 1) + (-108) * mn(p, 3, 0, 3, 1, 3, 2, 1) + (18) * mn(p, 2, 2, 2, 1, 3, 2, 1) + (-108) * mn(p, 2, 1, 3, 2, 2, 2, 1) + (18) * mn(p, 2, 1, 3, 1, 4, 1, 1) + (54) * mn(p, 2, 1, 3, 1, 2, 3, 2) + (-54) * mn(p, 2, 0, 4, 2, 3, 1, 1) + (54) * mn(p, 2, 0, 4, 1, 3, 2, 2));
    lemma_tm(p, 36, 2, 0, 2, 0, 2, 2, 0, 3, 2, 0, 0, 1, 1, 0, 0);
    assert(t14 * s0 == (108) * mn(p, 4, 0, 2, 1, 3, 2, 0));
    lemma_tm(p, 36, 2, 0, 2, 0, 2, 2, 0, 3, 1, 1, 0, 2, 0, 0, 0);
    assert(t14 * s1 == (108) * mn(p, 3, 1, 2, 2, 2, 2, 0));
    lemma_tm(p, 36, 2, 0, 2, 0, 2, 2, 0, -3, 1, 1, 0, 0, 0, 2, 0);
    assert(t14 * s2 == (-108) * mn(p, 3, 1, 2, 0, 2, 4, 0));
    lemma_tm(p, 36, 2, 0, 2, 0, 2, 2, 0, -6, 1, 0, 1, 0, 1, 1, 0);
    assert(t14 * s3 == (-216) * mn(p, 3, 0, 3, 0, 3, 3, 0));
    lemma_tm(p, 36, 2, 0, 2, 0, 2, 2, 0, 1, 0, 2, 0, 0, 1, 1, 0);
    assert(t14 * s4 == (36) * mn(p, 2, 2, 2, 0, 3, 3, 0));
    lemma_tm(p, 36, 2, 0, 2, 0, 2, 2, 0, -6, 0, 1, 1, 1, 0, 1, 0);
    assert(t14 * s5 == (-216) * mn(p, 2, 1, 3, 1, 2, 3, 0));
    lemma_tm(p, 36, 2, 0, 2, 0, 2, 2, 0, 1, 0, 1, 1, 0, 2, 0, 0);
    assert(t14 * s6 == (36) * mn(p, 2, 1, 3, 0, 4, 2, 0));
    lemma_tm(p, 36, 2, 0, 2, 0, 2, 2, 0, 3, 0, 1, 1, 0, 0, 2, 1);
    assert(t14 * s7 == (108) * mn(p, 2, 1, 3, 0, 2, 4, 1));
    lemma_tm(p, 36, 2, 0, 2, 0, 2, 2, 0, -3, 0, 0, 2, 1, 1, 0, 0);
    assert(t14 * s8 == (-108) * mn(p, 2, 0, 4, 1, 3, 2, 0));
    lemma_tm(p, 36, 2, 0, 2, 0, 2, 2, 0, 3, 0, 0, 2, 0, 1, 1, 1);
    assert(t14 * s9 == (108) * mn(p, 2, 0, 4, 0, 3, 3, 1));
    assert(t14 * q == (108) * mn(p, 4, 0, 2, 1, 3, 2, 0) + (108) * mn(p, 3, 1, 2, 2, 2, 2, 0) + (-108) * mn(p, 3, 1, 2, 0, 2, 4, 0) + (-216) * mn(p, 3, 0, 3, 0, 3, 3, 0) + (36) * mn(p, 2, 2, 2, 0, 3, 3, 0) + (-216) * mn(p, 2, 1, 3, 1, 2, 3, 0) + (36) * mn(p, 2, 1, 3, 0, 4, 2, 0) + (108) * mn(p, 2, 1, 3, 0, 2, 4, 1) + (-108) * mn(p, 2, 0, 4, 1, 3, 2, 0) + (108) * mn(p, 2, 0, 4, 0, 3, 3, 1));
    lemma_tm(p, 6, 1, 3, 0, 2, 1, 1, 0, 3, 2, 0, 0, 1, 1, 0, 0);
    assert(t15 * s0 == (18) * mn(p, 3, 3, 0, 3, 2, 1, 0));
    lemma_tm(p, 6, 1, 3, 0, 2, 1, 1, 0, 3, 1, 1, 0, 2, 0, 0, 0);
    assert(t15 * s1 == (18) * mn(p, 2, 4, 0, 4, 1, 1, 0));
    lemma_tm(p, 6, 1, 3, 0, 2, 1, 1, 0, -3, 1, 1, 0, 0, 0, 2, 0);
    assert(t15 * s2 == (-18) * mn(p, 2, 4, 0, 2, 1, 3, 0));
    lemma_tm(p, 6, 1, 3, 0, 2, 1, 1, 0, -6, 1, 0, 1, 0, 1, 1, 0);
    assert(t15 * s3 == (-36) * mn(p, 2, 3, 1, 2, 2, 2, 0));
    lemma_tm(p, 6, 1, 3, 0, 2, 1, 1, 0, 1, 0, 2, 0, 0, 1, 1, 0);
    assert(t15 * s4 == (6) * mn(p, 1, 5, 0, 2, 2, 2, 0));
    lemma_tm(p, 6, 1, 3, 0, 2, 1, 1, 0, -6, 0, 1, 1, 1, 0, 1, 0);
    assert(t15 * s5 == (-36) * mn(p, 1, 4, 1, 3, 1, 2, 0));
    lemma_tm(p, 6, 1, 3, 0, 2, 1, 1, 0, 1, 0, 1, 1, 0, 2, 0, 0);
    assert(t15 * s6 == (6) * mn(p, 1, 4, 1, 2, 3, 1, 0));
    lemma_tm(p, 6, 1, 3, 0, 2, 1, 1, 0, 3, 0, 1, 1, 0, 0, 2, 1);
    assert(t15 * s7 == (18) * mn(p, 1, 4, 1, 2, 1, 3, 1));
    lemma_tm(p, 6, 1, 3, 0, 2, 1, 1, 0, -3, 0, 0, 2, 1, 1, 0, 0);
    assert(t15 * s8 == (-18) * mn(p, 1, 3, 2, 3, 2, 1, 0));
    lemma_tm(p, 6, 1, 3, 0, 2, 1, 1, 0, 3, 0, 0, 2, 0, 1, 1, 1);
    assert(t15 * s9 == (18) * mn(p, 1, 3, 2, 2, 2, 2, 1));
    assert(t15 * q == (18) * mn(p, 3, 3, 0, 3, 2, 1, 0) + (18) * mn(p, 2, 4, 0, 4, 1, 1, 0) + (-18) * mn(p, 2, 4, 0, 2, 1, 3, 0) + (-36) * mn(p, 2, 3, 1, 2, 2, 2, 0) + (6) * mn(p, 1, 5, 0, 2, 2, 2, 0) + (-36) * mn(p, 1, 4, 1, 3, 1, 2, 0) + (6) * mn(p, 1, 4, 1, 2, 3, 1, 0) + (18) * mn(p, 1, 4, 1, 2, 1, 3, 1) + (-18) * mn(p, 1, 3, 2, 3, 2, 1, 0) + (18) * mn(p, 1, 3, 2, 2, 2, 2, 1));
    lemma_tm(p, -6, 1, 3, 0, 0, 1, 3, 0, 3, 2, 0, 0, 1, 1, 0, 0);
    assert(t16 * s0 == (-18) * mn(p, 3, 3, 0, 1, 2, 3, 0));
    lemma_tm(p, -6, 1, 3, 0, 0, 1, 3, 0, 3, 1, 1, 0, 2, 0, 0, 0);
    assert(t16 * s1 == (-18) * mn(p, 2, 4, 0, 2, 1, 3, 0));
    lemma_tm(p, -6, 1, 3, 0, 0, 1, 3, 0, -3, 1, 1, 0, 0, 0, 2, 0);
    assert(t16 * s2 == (18) * mn(p, 2, 4, 0, 0, 1, 5, 0));
    lemma_tm(p, -6, 1, 3, 0, 0, 1, 3, 0, -6, 1, 0, 1, 0, 1, 1, 0);
    assert(t16 * s3 == (36) * mn(p, 2, 3, 1, 0, 2, 4, 0));
    lemma_tm(p, -6, 1, 3, 0, 0, 1, 3, 0, 1, 0, 2, 0, 0, 1, 1, 0);
    assert(t16 * s4 == (-6) * mn(p, 1, 5, 0, 0, 2, 4, 0));
    lemma_tm(p, -6, 1, 3, 0, 0, 1, 3, 0, -6, 0, 1, 1, 1, 0, 1, 0);
    assert(t16 * s5 == (36) * mn(p, 1, 4, 1, 1, 1, 4, 0));
    lemma_tm(p, -6, 1, 3, 0, 0, 1, 3, 0, 1, 0, 1, 1, 0, 2, 0, 0);
    assert(t16 * s6 == (-6) * mn(p, 1, 4, 1, 0, 3, 3, 0));
    lemma_tm(p, -6, 1, 3, 0, 0, 1, 3, 0, 3, 0, 1, 1, 0, 0, 2, 1);
    assert(t16 * s7 == (-18) * mn(p, 1, 4, 1, 0, 1, 5, 1));
    lemma_tm(p, -6, 1, 3, 0, 0, 1, 3, 0, -3, 0, 0, 2, 1, 1, 0, 0);
    assert(t16 * s8 == (18) * mn(p, 1, 3, 2, 1, 2, 3, 0));
    lemma_tm(p, -6, 1, 3, 0, 0, 1, 3, 0, 3, 0, 0, 2, 0, 1, 1, 1);
    assert(t16 * s9 == (-18) * mn(p, 1, 3, 2, 0, 2, 4, 1));
    assert(t16 * q == (-18) * mn(p, 3, 3, 0, 1, 2, 3, 0) + (-18) * mn(p, 2, 4, 0, 2, 1, 3, 0) + (18) * mn(p, 2, 4, 0, 0, 1, 5, 0) + (36) * mn(p, 2, 3, 1, 0, 2, 4, 0) + (-6) * mn(p, 1, 5, 0, 0, 2, 4, 0) + (36) * mn(p, 1, 4, 1, 1, 1, 4, 0) + (-6) * mn(p, 1, 4, 1, 0, 3, 3, 0) + (-18) * mn(p, 1, 4, 1, 0, 1, 5, 1) + (18) * mn(p, 1, 3, 2, 1, 2, 3, 0) + (-18) * mn(p, 1, 3, 2, 0, 2, 4, 1));
    lemma_tm(p, -36, 1, 2, 1, 3, 0, 1, 0, 3, 2, 0, 0, 1, 1, 0, 0);
    assert(t17 * s0 == (-108) * mn(p, 3, 2, 1, 4, 1, 1, 0));
    lemma_tm(p, -36, 1, 2, 1, 3, 0, 1, 0, 3, 1, 1, 0, 2, 0, 0, 0);
    assert(t17 * s1 == (-108) * mn(p, 2, 3, 1, 5, 0, 1, 0));
    lemma_tm(p, -36, 1, 2, 1, 3, 0, 1, 0, -3, 1, 1, 0, 0, 0, 2, 0);
    assert(t17 * s2 == (108) * mn(p, 2, 3, 1, 3, 0, 3, 0));
    lemma_tm(p, -36, 1, 2, 1, 3, 0, 1, 0, -6, 1, 0, 1, 0, 1, 1, 0);
    assert(t17 * s3 == (216) * mn(p, 2, 2, 2, 3, 1, 2, 0));
    lemma_tm(p, -36, 1, 2, 1, 3, 0, 1, 0, 1, 0, 2, 0, 0, 1, 1, 0);
    assert(t17 * s4 == (-36) * mn(p, 1, 4, 1, 3, 1, 2, 0));
    lemma_tm(p, -36, 1, 2, 1, 3, 0, 1, 0, -6, 0, 1, 1, 1, 0, 1, 0);
    assert(t17 * s5 == (216) * mn(p, 1, 3, 2, 4, 0, 2, 0));
    lemma_tm(p, -36, 1, 2, 1, 3, 0, 1, 0, 1, 0, 1, 1, 0, 2, 0, 0);
    assert(t17 * s6 == (-36) * mn(p, 1, 3, 2, 3, 2, 1, 0));
    lemma_tm(p, -36, 1, 2, 1, 3, 0, 1, 0, 3, 0, 1, 1, 0, 0, 2, 1);
    assert(t17 * s7 == (-108) * mn(p, 1, 3, 2, 3, 0, 3, 1));
    lemma_tm(p, -36, 1, 2, 1, 3, 0, 1, 0, -3, 0, 0, 2, 1, 1, 0, 0);
    assert(t17 * s8 == (108) * mn(p, 1, 2, 3, 4, 1, 1, 0));
    lemma_tm(p, -36, 1, 2, 1, 3, 0, 1, 0, 3, 0, 0, 2, 0, 1, 1, 1);
    assert(t17 * s9 == (-108) * mn(p, 1, 2, 3, 3, 1, 2, 1));
    assert(t17 * q == (-108) * mn(p, 3, 2, 1, 4, 1, 1, 0) + (-108) * mn(p, 2, 3, 1, 5, 0, 1, 0) + (108) * mn(p, 2, 3, 1, 3, 0, 3, 0) + (216) * mn(p, 2, 2, 2, 3, 1, 2, 0) + (-36) * mn(p, 1, 4, 1, 3, 1, 2, 0) + (216) * mn(p, 1, 3, 2, 4, 0, 2, 0) + (-36) * mn(p, 1, 3, 2, 3, 2, 1, 0) + (-108) * mn(p, 1, 3, 2, 3, 0, 3, 1) + (108) * mn(p, 1, 2, 3, 4, 1, 1, 0) + (-108) * mn(p, 1, 2, 3, 3, 1, 2, 1));
    lemma_tm(p, 6, 1, 2, 1, 2, 2, 0, 0, 3, 2, 0, 0, 1, 1, 0, 0);
    assert(t18 * s0 == (18) * mn(p, 3, 2, 1, 3, 3, 0, 0));
    lemma_tm(p, 6, 1, 2, 1, 2, 2, 0, 0, 3, 1, 1, 0, 2, 0, 0, 0);
    assert(t18 * s1 == (18) * mn(p, 2, 3, 1, 4, 2, 0, 0));
    lemma_tm(p, 6, 1, 2, 1, 2, 2, 0, 0, -3, 1, 1, 0, 0, 0, 2, 0);
    assert(t18 * s2 == (-18) * mn(p, 2, 3, 1, 2, 2, 2, 0));
    lemma_tm(p, 6, 1, 2, 1, 2, 2, 0, 0, -6, 1, 0, 1, 0, 1, 1, 0);
    assert(t18 * s3 == (-36) * mn(p, 2, 2, 2, 2, 3, 1, 0));
    lemma_tm(p, 6, 1, 2, 1, 2, 2, 0, 0, 1, 0, 2, 0, 0, 1, 1, 0);
    assert(t18 * s4 == (6) * mn(p, 1, 4, 1, 2, 3, 1, 0));
    lemma_tm(p, 6, 1, 2, 1, 2, 2, 0, 0, -6, 0, 1, 1, 1, 0, 1, 0);
    assert(t18 * s5 == (-36) * mn(p, 1, 3, 2, 3, 2, 1, 0));
    lemma_tm(p, 6, 1, 2, 1, 2, 2, 0, 0, 1, 0, 1, 1, 0, 2, 0, 0);
    assert(t18 * s6 == (6) * mn(p, 1, 3, 2, 2, 4, 0, 0));
    lemma_tm(p, 6, 1, 2, 1, 2, 2, 0, 0, 3, 0, 1, 1, 0, 0, 2, 1);
    assert(t18 * s7 == (18) * mn(p, 1, 3, 2, 2, 2, 2, 1));
    lemma_tm(p, 6, 1, 2, 1, 2, 2, 0, 0, -3, 0, 0, 2, 1, 1, 0, 0);
    assert(t18 * s8 == (-18) * mn(p, 1, 2, 3, 3, 3, 0, 0));
    lemma_tm(p, 6, 1, 2, 1, 2, 2, 0, 0, 3, 0, 0, 2, 0, 1, 1, 1);
    assert(t18 * s9 == (18) * mn(p, 1, 2, 3, 2, 3, 1, 1));
    assert(t18 * q == (18) * mn(p, 3, 2, 1, 3, 3, 0, 0) + (18) * mn(p, 2, 3, 1, 4, 2, 0, 0) + (-18) * mn(p, 2, 3, 1, 2, 2, 2, 0) + (-36) * mn(p, 2, 2, 2, 2, 3, 1, 0) + (6) * mn(p, 1, 4, 1, 2, 3, 1, 0) + (-36) * mn(p, 1, 3, 2, 3, 2, 1, 0) + (6) * mn(p, 1, 3, 2, 2, 4, 0, 0) + (18) * mn(p, 1, 3, 2, 2, 2, 2, 1) + (-18) * mn(p, 1, 2, 3, 3, 3, 0, 0) + (18) * mn(p, 1, 2, 3, 2, 3, 1, 1));
    lemma_tm(p, 18, 1, 2, 1, 2, 0, 2, 1, 3, 2, 0, 0, 1, 1, 0, 0);
    assert(t19 * s0 == (54) * mn(p, 3, 2, 1, 3, 1, 2, 1));
    lemma_tm(p, 18, 1, 2, 1, 2, 0, 2, 1, 3, 1, 1, 0, 2, 0, 0, 0);
    assert(t19 * s1 == (54) * mn(p, 2, 3, 1, 4, 0, 2, 1));
    lemma_tm(p, 18, 1, 2, 1, 2, 0, 2, 1, -3, 1, 1, 0, 0, 0, 2, 0);
    assert(t19 * s2 == (-54) * mn(p, 2, 3, 1, 2, 0, 4, 1));
    lemma_tm(p, 18, 1, 2, 1, 2, 0, 2, 1, -6, 1, 0, 1, 0, 1, 1, 0);
    assert(t19 * s3 == (-108) * mn(p, 2, 2, 2, 2, 1, 3, 1));
    lemma_tm(p, 18, 1, 2, 1, 2, 0, 2, 1, 1, 0, 2, 0, 0, 1, 1, 0);
    assert(t19 * s4 == (18) * mn(p, 1, 4, 1, 2, 1, 3, 1));
    lemma_tm(p, 18, 1, 2, 1, 2, 0, 2, 1, -6, 0, 1, 1, 1, 0, 1, 0);
    assert(t19 * s5 == (-108) * mn(p, 1, 3, 2, 3, 0, 3, 1));
    lemma_tm(p, 18, 1, 2, 1, 2, 0, 2, 1, 1, 0, 1, 1, 0, 2, 0, 0);
    assert(t19 * s6 == (18) * mn(p, 1, 3, 2, 2, 2, 2, 1));
    lemma_tm(p, 18, 1, 2, 1, 2, 0, 2, 1, 3, 0, 1, 1, 0, 0, 2, 1);
    assert(t19 * s7 == (54) * mn(p, 1, 3, 2, 2, 0, 4, 2));
    lemma_tm(p, 18, 1, 2, 1, 2, 0, 2, 1, -3, 0, 0, 2, 1, 1, 0, 0);
    assert(t19 * s8 == (-54) * mn(p, 1, 2, 3, 3, 1, 2, 1));
    lemma_tm(p, 18, 1, 2, 1, 2, 0, 2, 1, 3, 0, 0, 2, 0, 1, 1, 1);
    assert(t19 * s9 == (54) * mn(p, 1, 2, 3, 2, 1, 3, 2));
    assert(t19 * q == (54) * mn(p, 3, 2, 1, 3, 1, 2, 1) + (54) * mn(p, 2, 3, 1, 4, 0, 2, 1) + (-54) * mn(p, 2, 3, 1, 2, 0, 4, 1) + (-108) * mn(p, 2, 2, 2, 2, 1, 3, 1) + (18) * mn(p, 1, 4, 1, 2, 1, 3, 1) + (-108) * mn(p, 1, 3, 2, 3, 0, 3, 1) + (18) * mn(p, 1, 3, 2, 2, 2, 2, 1) + (54) * mn(p, 1, 3, 2, 2, 0, 4, 2) + (-54) * mn(p, 1, 2, 3, 3, 1, 2, 1) + (54) * mn(p, 1, 2, 3, 2, 1, 3, 2));
    lemma_tm(p, 36, 1, 2, 1, 1, 0, 3, 0, 3, 2, 0, 0, 1, 1, 0, 0);
    assert(t20 * s0 == (108) * mn(p, 3, 2, 1, 2, 1, 3, 0));
    lemma_tm(p, 36, 1, 2, 1, 1, 0, 3, 0, 3, 1, 1, 0, 2, 0, 0, 0);
    assert(t20 * s1 == (108) * mn(p, 2, 3, 1, 3, 0, 3, 0));
    lemma_tm(p, 36, 1, 2, 1, 1, 0, 3, 0, -3, 1, 1, 0, 0, 0, 2, 0);
    assert(t20 * s2 == (-108) * mn(p, 2, 3, 1, 1, 0, 5, 0));
    lemma_tm(p, 36, 1, 2, 1, 1, 0, 3, 0, -6, 1, 0, 1, 0, 1, 1, 0);
    assert(t20 * s3 == (-216) * mn(p, 2, 2, 2, 1, 1, 4, 0));
    lemma_tm(p, 36, 1, 2, 1, 1, 0, 3, 0, 1, 0, 2, 0, 0, 1, 1, 0);
    assert(t20 * s4 == (36) * mn(p, 1, 4, 1, 1, 1, 4, 0));
    lemma_tm(p, 36, 1, 2, 1, 1, 0, 3, 0, -6, 0, 1, 1, 1, 0, 1, 0);
    assert(t20 * s5 == (-216) * mn(p, 1, 3, 2, 2, 0, 4, 0));
    lemma_tm(p, 36, 1, 2, 1, 1, 0, 3, 0, 1, 0, 1, 1, 0, 2, 0, 0);
    assert(t20 * s6 == (36) * mn(p, 1, 3, 2, 1, 2, 3, 0));
    lemma_tm(p, 36, 1, 2, 1, 1, 0, 3, 0, 3, 0, 1, 1, 0, 0, 2, 1);
    assert(t20 * s7 == (108) * mn(p, 1, 3, 2, 1, 0, 5, 1));
    lemma_tm(p, 36, 1, 2, 1, 1, 0, 3, 0, -3, 0, 0, 2, 1, 1, 0, 0);
    assert(t20 * s8 == (-108) * mn(p, 1, 2, 3, 2, 1, 3, 0));
    lemma_tm(p, 36, 1, 2, 1, 1, 0, 3, 0, 3, 0, 0, 2, 0, 1, 1, 1);
    assert(t20 * s9 == (108) * mn(p, 1, 2, 3, 1, 1, 4, 1));
    assert(t20 * q == (108) * mn(p, 3, 2, 1, 2, 1, 3, 0) + (108) * mn(p, 2, 3, 1, 3, 0, 3, 0) + (-108) * mn(p, 2, 3, 1, 1, 0, 5, 0) + (-216) * mn(p, 2, 2, 2, 1, 1, 4, 0) + (36) * mn(p, 1, 4, 1, 1, 1, 4, 0) + (-216) * mn(p, 1, 3, 2, 2, 0, 4, 0) + (36) * mn(p, 1, 3, 2, 1, 2, 3, 0) + (108) * mn(p, 1, 3, 2, 1, 0, 5, 1) + (-108) * mn(p, 1, 2, 3, 2, 1, 3, 0) + (108) * mn(p, 1, 2, 3, 1, 1, 4, 1));
    lemma_tm(p, -18, 1, 2, 1, 0, 2, 2, 0, 3, 2, 0, 0, 1, 1, 0, 0);
    assert(t21 * s0 == (-54) * mn(p, 3, 2, 1, 1, 3, 2, 0));
    lemma_tm(p, -18, 1, 2, 1, 0, 2, 2, 0, 3, 1, 1, 0, 2, 0, 0, 0);
    assert(t21 * s1 == (-54) * mn(p, 2, 3, 1, 2, 2, 2, 0));
    lemma_tm(p, -18, 1, 2, 1, 0, 2, 2, 0, -3, 1, 1, 0, 0, 0, 2, 0);
    assert(t21 * s2 == (54) * mn(p, 2, 3, 1, 0, 2, 4, 0));
    lemma_tm(p, -18, 1, 2, 1, 0, 2, 2, 0, -6, 1, 0, 1, 0, 1, 1, 0);
    assert(t21 * s3 == (108) * mn(p, 2, 2, 2, 0, 3, 3, 0));
    lemma_tm(p, -18, 1, 2, 1, 0, 2, 2, 0, 1, 0, 2, 0, 0, 1, 1, 0);
    assert(t21 * s4 == (-18) * mn(p, 1, 4, 1, 0, 3, 3, 0));
    lemma_tm(p, -18, 1, 2, 1, 0, 2, 2, 0, -6, 0, 1, 1, 1, 0, 1, 0);
    assert(t21 * s5 == (108) * mn(p, 1, 3, 2, 1, 2, 3, 0));
    lemma_tm(p, -18, 1, 2, 1, 0, 2, 2, 0, 1, 0, 1, 1, 0, 2, 0, 0);
    assert(t21 * s6 == (-18) * mn(p, 1, 3, 2, 0, 4, 2, 0));
    lemma_tm(p, -18, 1, 2, 1, 0, 2, 2, 0, 3, 0, 1, 1, 0, 0, 2, 1);
    assert(t21 * s7 == (-54) * mn(p, 1, 3, 2, 0, 2, 4, 1));
    lemma_tm(p, -18, 1, 2, 1, 0, 2, 2, 0, -3, 0, 0, 2, 1, 1, 0, 0);
    assert(t21 * s8 == (54) * mn(p, 1, 2, 3, 1, 3, 2, 0));
    lemma_tm(p, -18, 1, 2, 1, 0, 2, 2, 0, 3, 0, 0, 2, 0, 1, 1, 1);
    assert(t21 * s9 == (-54) * mn(p, 1, 2, 3, 0, 3, 3, 1));
    assert(t21 * q == (-54) * mn(p, 3, 2, 1, 1, 3, 2, 0) + (-54) * mn(p, 2, 3, 1, 2, 2, 2, 0) + (54) * mn(p, 2, 3, 1, 0, 2, 4, 0) + (108) * mn(p, 2, 2, 2, 0, 3, 3, 0) + (-18) * mn(p, 1, 4, 1, 0, 3, 3, 0) + (108) * mn(p, 1, 3, 2, 1, 2, 3, 0) + (-18) * mn(p, 1, 3, 2, 0, 4, 2, 0) + (-54) * mn(p, 1, 3, 2, 0, 2, 4, 1) + (54) * mn(p, 1, 2, 3, 1, 3, 2, 0) + (-54) * mn(p, 1, 2, 3, 0, 3, 3, 1));
    lemma_tm(p, -18, 1, 2, 1, 0, 0, 4, 1, 3, 2, 0, 0, 1, 1, 0, 0);
    assert(t22 * s0 == (-54) * mn(p, 3, 2, 1, 1, 1, 4, 1));
    lemma_tm(p, -18, 1, 2, 1, 0, 0, 4, 1, 3, 1, 1, 0, 2, 0, 0, 0);
    assert(t22 * s1 == (-54) * mn(p, 2, 3, 1, 2, 0, 4, 1));
    lemma_tm(p, -18, 1, 2, 1, 0, 0, 4, 1, -3, 1, 1, 0, 0, 0, 2, 0);
    assert(t22 * s2 == (54) * mn(p, 2, 3, 1, 0, 0, 6, 1));
    lemma_tm(p, -18, 1, 2, 1, 0, 0, 4, 1, -6, 1, 0, 1, 0, 1, 1, 0);
    assert(t22 * s3 == (108) * mn(p, 2, 2, 2, 0, 1, 5, 1));
    lemma_tm(p, -18, 1, 2, 1, 0, 0, 4, 1, 1, 0, 2, 0, 0, 1, 1, 0);
    assert(t22 * s4 == (-18) * mn(p, 1, 4, 1, 0, 1, 5, 1));
    lemma_tm(p, -18, 1, 2, 1, 0, 0, 4, 1, -6, 0, 1, 1, 1, 0, 1, 0);
    assert(t22 * s5 == (108) * mn(p, 1, 3, 2, 1, 0, 5, 1));
    lemma_tm(p, -18, 1, 2, 1, 0, 0, 4, 1, 1, 0, 1, 1, 0, 2, 0, 0);
    assert(t22 * s6 == (-18) * mn(p, 1, 3, 2, 0, 2, 4, 1));
    lemma_tm(p, -18, 1, 2, 1, 0, 0, 4, 1, 3, 0, 1, 1, 0, 0, 2, 1);
    assert(t22 * s7 == (-54) * mn(p, 1, 3, 2, 0, 0, 6, 2));
    lemma_tm(p, -18, 1, 2, 1, 0, 0, 4, 1, -3, 0, 0, 2, 1, 1, 0, 0);
    assert(t22 * s8 == (54) * mn(p, 1, 2, 3, 1, 1, 4, 1));
    lemma_tm(p, -18, 1, 2, 1, 0, 0, 4, 1, 3, 0, 0, 2, 0, 1, 1, 1);
    assert(t22 * s9 == (-54) * mn(p, 1, 2, 3, 0, 1, 5, 2));
    assert(t22 * q == (-54) * mn(p, 3, 2, 1, 1, 1, 4, 1) + (-54) * mn(p, 2, 3, 1, 2, 0, 4, 1) + (54) * mn(p, 2, 3, 1, 0, 0, 6, 1) + (108) * mn(p, 2, 2, 2, 0, 1, 5, 1) + (-18) * mn(p, 1, 4, 1, 0, 1, 5, 1) + (108) * mn(p, 1, 3, 2, 1, 0, 5, 1) + (-18) * mn(p, 1, 3, 2, 0, 2, 4, 1) + (-54) * mn(p, 1, 3, 2, 0, 0, 6, 2) + (54) * mn(p, 1, 2, 3, 1, 1, 4, 1) + (-54) * mn(p, 1, 2, 3, 0, 1, 5, 2));
    lemma_tm(p, -18, 1, 1, 2, 3, 1, 0, 0, 3, 2, 0, 0, 1, 1, 0, 0);
    assert(t23 * s0 == (-54) * mn(p, 3, 1, 2, 4, 2, 0, 0));
    lemma_tm(p, -18, 1, 1, 2, 3, 1, 0, 0, 3, 1, 1, 0, 2, 0, 0, 0);
    assert(t23 * s1 == (-54) * mn(p, 2, 2, 2, 5, 1, 0, 0));
    lemma_tm(p, -18, 1, 1, 2, 3, 1, 0, 0, -3, 1, 1, 0, 0, 0, 2, 0);
    assert(t23 * s2 == (54) * mn(p, 2, 2, 2, 3, 1, 2, 0));
    lemma_tm(p, -18, 1, 1, 2, 3, 1, 0, 0, -6, 1, 0, 1, 0, 1, 1, 0);
    assert(t23 * s3 == (108) * mn(p, 2, 1, 3, 3, 2, 1, 0));
    lemma_tm(p, -18, 1, 1, 2, 3, 1, 0, 0, 1, 0, 2, 0, 0, 1, 1, 0);
    assert(t23 * s4 == (-18) * mn(p, 1, 3, 2, 3, 2, 1, 0));
    lemma_tm(p, -18, 1, 1, 2, 3, 1, 0, 0, -6, 0, 1, 1, 1, 0, 1, 0);
    assert(t23 * s5 == (108) * mn(p, 1, 2, 3, 4, 1, 1, 0));
    lemma_tm(p, -18, 1, 1, 2, 3, 1, 0, 0, 1, 0, 1, 1, 0, 2, 0, 0);
    assert(t23 * s6 == (-18) * mn(p, 1, 2, 3, 3, 3, 0, 0));
    lemma_tm(p, -18, 1, 1, 2, 3, 1, 0, 0, 3, 0, 1, 1, 0, 0, 2, 1);
    assert(t23 * s7 == (-54) * mn(p, 1, 2, 3, 3, 1, 2, 1));
    lemma_tm(p, -18, 1, 1, 2, 3, 1, 0, 0, -3, 0, 0, 2, 1, 1, 0, 0);
    assert(t23 * s8 == (54) * mn(p, 1, 1, 4, 4, 2, 0, 0));
    lemma_tm(p, -18, 1, 1, 2, 3, 1, 0, 0, 3, 0, 0, 2, 0, 1, 1, 1);
    assert(t23 * s9 == (-54) * mn(p, 1, 1, 4, 3, 2, 1, 1));
    assert(t23 * q == (-54) * mn(p, 3, 1, 2, 4, 2, 0, 0) + (-54) * mn(p, 2, 2, 2, 5, 1, 0, 0) + (54) * mn(p, 2, 2, 2, 3, 1, 2, 0) + (108) * mn(p, 2, 1, 3, 3, 2, 1, 0) + (-18) * mn(p, 1, 3, 2, 3, 2, 1, 0) + (108) * mn(p, 1, 2, 3, 4, 1, 1, 0) + (-18) * mn(p, 1, 2, 3, 3, 3, 0, 0) + (-54) * mn(p, 1, 2, 3, 3, 1, 2, 1) + (54) * mn(p, 1, 1, 4, 4, 2, 0, 0) + (-54) * mn(p, 1, 1, 4, 3, 2, 1, 1));
    lemma_tm(p, 18, 1, 1, 2, 2, 1, 1, 1, 3, 2, 0, 0, 1, 1, 0, 0);
    assert(t24 * s0 == (54) * mn(p, 3, 1, 2, 3, 2, 1, 1));
    lemma_tm(p, 18, 1, 1, 2, 2, 1, 1, 1, 3, 1, 1, 0, 2, 0, 0, 0);
    assert(t24 * s1 == (54) * mn(p, 2, 2, 2, 4, 1, 1, 1));
    lemma_tm(p, 18, 1, 1, 2, 2, 1, 1, 1, -3, 1, 1, 0, 0, 0, 2, 0);
    assert(t24 * s2 == (-54) * mn(p, 2, 2, 2, 2, 1, 3, 1));
    lemma_tm(p, 18, 1, 1, 2, 2, 1, 1, 1, -6, 1, 0, 1, 0, 1, 1, 0);
    assert(t24 * s3 == (-108) * mn(p, 2, 1, 3, 2, 2, 2, 1));
    lemma_tm(p, 18, 1, 1, 2, 2, 1, 1, 1, 1, 0, 2, 0, 0, 1, 1, 0);
    assert(t24 * s4 == (18) * mn(p, 1, 3, 2, 2, 2, 2, 1));
    lemma_tm(p, 18, 1, 1, 2, 2, 1, 1, 1, -6, 0, 1, 1, 1, 0, 1, 0);
    assert(t24 * s5 == (-108) * mn(p, 1, 2, 3, 3, 1, 2, 1));
    lemma_tm(p, 18, 1, 1, 2, 2, 1, 1, 1, 1, 0, 1, 1, 0, 2, 0, 0);
    assert(t24 * s6 == (18) * mn(p, 1, 2, 3, 2, 3, 1, 1));
    lemma_tm(p, 18, 1, 1, 2, 2, 1, 1, 1, 3, 0, 1, 1, 0, 0, 2, 1);
    assert(t24 * s7 == (54) * mn(p, 1, 2, 3, 2, 1, 3, 2));
    lemma_tm(p, 18, 1, 1, 2, 2, 1, 1, 1, -3, 0, 0, 2, 1, 1, 0, 0);
    assert(t24 * s8 == (-54) * mn(p, 1, 1, 4, 3, 2, 1, 1));
    lemma_tm(p, 18, 1, 1, 2, 2, 1, 1, 1, 3, 0, 0, 2, 0, 1, 1, 1);
    assert(t24 * s9 == (54) * mn(p, 1, 1, 4, 2, 2, 2, 2));
    assert(t24 * q == (54) * mn(p, 3, 1, 2, 3, 2, 1, 1) + (54) * mn(p, 2, 2, 2, 4, 1, 1, 1) + (-54) * mn(p, 2, 2, 2, 2, 1, 3, 1) + (-108) * mn(p, 2, 1, 3, 2, 2, 2, 1) + (18) * mn(p, 1, 3, 2, 2, 2, 2, 1) + (-108) * mn(p, 1, 2, 3, 3, 1, 2, 1) + (18) * mn(p, 1, 2, 3, 2, 3, 1, 1) + (54) * mn(p, 1, 2, 3, 2, 1, 3, 2) + (-54) * mn(p, 1, 1, 4, 3, 2, 1, 1) + (54) * mn(p, 1, 1, 4, 2, 2, 2, 2));
    lemma_tm(p, 90, 1, 1, 2, 1, 1, 2, 0, 3, 2, 0, 0, 1, 1, 0, 0);
    assert(t25 * s0 == (270) * mn(p, 3, 1, 2, 2, 2, 2, 0));
    lemma_tm(p, 90, 1, 1, 2, 1, 1, 2, 0, 3, 1, 1, 0, 2, 0, 0, 0);
    assert(t25 * s1 == (270) * mn(p, 2, 2, 2, 3, 1, 2, 0));
    lemma_tm(p, 90, 1, 1, 2, 1, 1, 2, 0, -3, 1, 1, 0, 0, 0, 2, 0);
    assert(t25 * s2 == (-270) * mn(p, 2, 2, 2, 1, 1, 4, 0));
    lemma_tm(p, 90, 1, 1, 2, 1, 1, 2, 0, -6, 1, 0, 1, 0, 1, 1, 0);
    assert(t25 * s3 == (-540) * mn(p, 2, 1, 3, 1, 2, 3, 0));
    lemma_tm(p, 90, 1, 1, 2, 1, 1, 2, 0, 1, 0, 2, 0, 0, 1, 1, 0);
    assert(t25 * s4 == (90) * mn(p, 1, 3, 2, 1, 2, 3, 0));
    lemma_tm(p, 90, 1, 1, 2, 1, 1, 2, 0, -6, 0, 1, 1, 1, 0, 1, 0);
    assert(t25 * s5 == (-540) * mn(p, 1, 2, 3, 2, 1, 3, 0));
    lemma_tm(p, 90, 1, 1, 2, 1, 1, 2, 0, 1, 0, 1, 1, 0, 2, 0, 0);
    assert(t25 * s6 == (90) * mn(p, 1, 2, 3, 1, 3, 2, 0));
    lemma_tm(p, 90, 1, 1, 2, 1, 1, 2, 0, 3, 0, 1, 1, 0, 0, 2, 1);
    assert(t25 * s7 == (270) * mn(p, 1, 2, 3, 1, 1, 4, 1));
    lemma_tm(p, 90, 1, 1, 2, 1, 1, 2, 0, -3, 0, 0, 2, 1, 1, 0, 0);
    assert(t25 * s8 == (-270) * mn(p, 1, 1, 4, 2, 2, 2, 0));
    lemma_tm(p, 90, 1, 1, 2, 1, 1, 2, 0, 3, 0, 0, 2, 0, 1, 1, 1);
    assert(t25 * s9 == (270) * mn(p, 1, 1, 4, 1, 2, 3, 1));
    assert(t25 * q == (270) * mn(p, 3, 1, 2, 2, 2, 2, 0) + (270) * mn(p, 2, 2, 2, 3, 1, 2, 0) + (-270) * mn(p, 2, 2, 2, 1, 1, 4, 0) + (-540) * mn(p, 2, 1, 3, 1, 2, 3, 0) + (90) * mn(p, 1, 3, 2, 1, 2, 3, 0) + (-540) * mn(p, 1, 2, 3, 2, 1, 3, 0) + (90) * mn(p, 1, 2, 3, 1, 3, 2, 0) + (270) * mn(p, 1, 2, 3, 1, 1, 4, 1) + (-270) * mn(p, 1, 1, 4, 2, 2, 2, 0) + (270) * mn(p, 1, 1, 4, 1, 2, 3, 1));
    lemma_tm(p, -12, 1, 1, 2, 0, 3, 1, 0, 3, 2, 0, 0, 1, 1, 0, 0);
    assert(t26 * s0 == (-36) * mn(p, 3, 1, 2, 1, 4, 1, 0));
    lemma_tm(p, -12, 1, 1, 2, 0, 3, 1, 0, 3, 1, 1, 0, 2, 0, 0, 0);
    assert(t26 * s1 == (-36) * mn(p, 2, 2, 2, 2, 3, 1, 0));
    lemma_tm(p, -12, 1, 1, 2, 0, 3, 1, 0, -3, 1, 1, 0, 0, 0, 2, 0);
    assert(t26 * s2 == (36) * mn(p, 2, 2, 2, 0, 3, 3, 0));
    lemma_tm(p, -12, 1, 1, 2, 0, 3, 1, 0, -6, 1, 0, 1, 0, 1, 1, 0);
    assert(t26 * s3 == (72) * mn(p, 2, 1, 3, 0, 4, 2, 0));
    lemma_tm(p, -12, 1, 1, 2, 0, 3, 1, 0, 1, 0, 2, 0, 0, 1, 1, 0);
    assert(t26 * s4 == (-12) * mn(p, 1, 3, 2, 0, 4, 2, 0));
    lemma_tm(p, -12, 1, 1, 2, 0, 3, 1, 0, -6, 0, 1, 1, 1, 0, 1, 0);
    assert(t26 * s5 == (72) * mn(p, 1, 2, 3, 1, 3, 2, 0));
    lemma_tm(p, -12, 1, 1, 2, 0, 3, 1, 0, 1, 0, 1, 1, 0, 2, 0, 0);
    assert(t26 * s6 == (-12) * mn(p, 1, 2, 3, 0, 5, 1, 0));
    lemma_tm(p, -12, 1, 1, 2, 0, 3, 1, 0, 3, 0, 1, 1, 0, 0, 2, 1);
    assert(t26 * s7 == (-36) * mn(p, 1, 2, 3, 0, 3, 3, 1));
    lemma_tm(p, -12, 1, 1, 2, 0, 3, 1, 0, -3, 0, 0, 2, 1, 1, 0, 0);
    assert(t26 * s8 == (36) * mn(p, 1, 1, 4, 1, 4, 1, 0));
    lemma_tm(p, -12, 1, 1, 2, 0, 3, 1, 0, 3, 0, 0, 2, 0, 1, 1, 1);
    assert(t26 * s9 == (-36) * mn(p, 1, 1, 4, 0, 4, 2, 1));
    assert(t26 * q == (-36) * mn(p, 3, 1, 2, 1, 4, 1, 0) + (-36) * mn(p, 2, 2, 2, 2, 3, 1, 0) + (36) * mn(p, 2, 2, 2, 0, 3, 3, 0) + (72) * mn(p, 2, 1, 3, 0, 4, 2, 0) + (-12) * mn(p, 1, 3, 2, 0, 4, 2, 0) + (72) * mn(p, 1, 2, 3, 1, 3, 2, 0) + (-12) * mn(p, 1, 2, 3, 0, 5, 1, 0) + (-36) * mn(p, 1, 2, 3, 0, 3, 3, 1) + (36) * mn(p, 1, 1, 4, 1, 4, 1, 0) + (-36) * mn(p, 1, 1, 4, 0, 4, 2, 1));
    lemma_tm(p, -54, 1, 1, 2, 0, 1, 3, 1, 3, 2, 0, 0, 1, 1, 0, 0);
    assert(t27 * s0 == (-162) * mn(p, 3, 1, 2, 1, 2, 3, 1));
    lemma_tm(p, -54, 1, 1, 2, 0, 1, 3, 1, 3, 1, 1, 0, 2, 0, 0, 0);
    assert(t27 * s1 == (-162) * mn(p, 2, 2, 2, 2, 1, 3, 1));
    lemma_tm(p, -54, 1, 1, 2, 0, 1, 3, 1, -3, 1, 1, 0, 0, 0, 2, 0);
    assert(t27 * s2 == (162) * mn(p, 2, 2, 2, 0, 1, 5, 1));
    lemma_tm(p, -54, 1, 1, 2, 0, 1, 3, 1, -6, 1, 0, 1, 0, 1, 1, 0);
    assert(t27 * s3 == (324) * mn(p, 2, 1, 3, 0, 2, 4, 1));
    lemma_tm(p, -54, 1, 1, 2, 0, 1, 3, 1, 1, 0, 2, 0, 0, 1, 1, 0);
    assert(t27 * s4 == (-54) * mn(p, 1, 3, 2, 0, 2, 4, 1));
    lemma_tm(p, -54, 1, 1, 2, 0, 1, 3, 1, -6, 0, 1, 1, 1, 0, 1, 0);
    assert(t27 * s5 == (324) * mn(p, 1, 2, 3, 1, 1, 4, 1));
    lemma_tm(p, -54, 1, 1, 2, 0, 1, 3, 1, 1, 0, 1, 1, 0, 2, 0, 0);
    assert(t27 * s6 == (-54) * mn(p, 1, 2, 3, 0, 3, 3, 1));
    lemma_tm(p, -54, 1, 1, 2, 0, 1, 3, 1, 3, 0, 1, 1, 0, 0, 2, 1);
    assert(t27 * s7 == (-162) * mn(p, 1, 2, 3, 0, 1, 5, 2));
    lemma_tm(p, -54, 1, 1, 2, 0, 1, 3, 1, -3, 0, 0, 2, 1, 1, 0, 0);
    assert(t27 * s8 == (162) * mn(p, 1, 1, 4, 1, 2, 3, 1));
    lemma_tm(p, -54, 1, 1, 2, 0, 1, 3, 1, 3, 0, 0, 2, 0, 1, 1, 1);
    assert(t27 * s9 == (-162) * mn(p, 1, 1, 4, 0, 2, 4, 2));
    assert(t27 * q == (-162) * mn(p, 3, 1, 2, 1, 2, 3, 1) + (-162) * mn(p, 2, 2, 2, 2, 1, 3, 1) + (162) * mn(p, 2, 2, 2, 0, 1, 5, 1) + (324) * mn(p, 2, 1, 3, 0, 2, 4, 1) + (-54) * mn(p, 1, 3, 2, 0, 2, 4, 1) + (324) * mn(p, 1, 2, 3, 1, 1, 4, 1) + (-54) * mn(p, 1, 2, 3, 0, 3, 3, 1) + (-162) * mn(p, 1, 2, 3, 0, 1, 5, 2) + (162) * mn(p, 1, 1, 4, 1, 2, 3, 1) + (-162) * mn(p, 1, 1, 4, 0, 2, 4, 2));
    lemma_tm(p, 36, 1, 0, 3, 1, 2, 1, 0, 3, 2, 0, 0, 1, 1, 0, 0);
    assert(t28 * s0 == (108) * mn(p, 3, 0, 3, 2, 3, 1, 0));
    lemma_tm(p, 36, 1, 0, 3, 1, 2, 1, 0, 3, 1, 1, 0, 2, 0, 0, 0);
    assert(t28 * s1 == (108) * mn(p, 2, 1, 3, 3, 2, 1, 0));
    lemma_tm(p, 36, 1, 0, 3, 1, 2, 1, 0, -3, 1, 1, 0, 0, 0, 2, 0);
    assert(t28 * s2 == (-108) * mn(p, 2, 1, 3, 1, 2, 3, 0));
    lemma_tm(p, 36, 1, 0, 3, 1, 2, 1, 0, -6, 1, 0, 1, 0, 1, 1, 0);
    assert(t28 * s3 == (-216) * mn(p, 2, 0, 4, 1, 3, 2, 0));
    lemma_tm(p, 36, 1, 0, 3, 1, 2, 1, 0, 1, 0, 2, 0, 0, 1, 1, 0);
    assert(t28 * s4 == (36) * mn(p, 1, 2, 3, 1, 3, 2, 0));
    lemma_tm(p, 36, 1, 0, 3, 1, 2, 1, 0, -6, 0, 1, 1, 1, 0, 1, 0);
    assert(t28 * s5 == (-216) * mn(p, 1, 1, 4, 2, 2, 2, 0));
    lemma_tm(p, 36, 1, 0, 3, 1, 2, 1, 0, 1, 0, 1, 1, 0, 2, 0, 0);
    assert(t28 * s6 == (36) * mn(p, 1, 1, 4, 1, 4, 1, 0));
    lemma_tm(p, 36, 1, 0, 3, 1, 2, 1, 0, 3, 0, 1, 1, 0, 0, 2, 1);
    assert(t28 * s7 == (108) * mn(p, 1, 1, 4, 1, 2, 3, 1));
    lemma_tm(p, 36, 1, 0, 3, 1, 2, 1, 0, -3, 0, 0, 2, 1, 1, 0, 0);
    assert(t28 * s8 == (-108) * mn(p, 1, 0, 5, 2, 3, 1, 0));
    lemma_tm(p, 36, 1, 0, 3, 1, 2, 1, 0, 3, 0, 0, 2, 0, 1, 1, 1);
    assert(t28 * s9 == (108) * mn(p, 1, 0, 5, 1, 3, 2, 1));
    assert(t28 * q == (108) * mn(p, 3, 0, 3, 2, 3, 1, 0) + (108) * mn(p, 2, 1, 3, 3, 2, 1, 0) + (-108) * mn(p, 2, 1, 3, 1, 2, 3, 0) + (-216) * mn(p, 2, 0, 4, 1, 3, 2, 0) + (36) * mn(p, 1, 2, 3, 1, 3, 2, 0) + (-216) * mn(p, 1, 1, 4, 2, 2, 2, 0) + (36) * mn(p, 1, 1, 4, 1, 4, 1, 0) + (108) * mn(p, 1, 1, 4, 1, 2, 3, 1) + (-108) * mn(p, 1, 0, 5, 2, 3, 1, 0) + (108) * mn(p, 1, 0, 5, 1, 3, 2, 1));
    lemma_tm(p, -36, 1, 0, 3, 0, 2, 2, 1, 3, 2, 0, 0, 1, 1, 0, 0);
    assert(t29 * s0 == (-108) * mn(p, 3, 0, 3, 1, 3, 2, 1));
    lemma_tm(p, -36, 1, 0, 3, 0, 2, 2, 1, 3, 1, 1, 0, 2, 0, 0, 0);
    assert(t29 * s1 == (-108) * mn(p, 2, 1, 3, 2, 2, 2, 1));
    lemma_tm(p, -36, 1, 0, 3, 0, 2, 2, 1, -3, 1, 1, 0, 0, 0, 2, 0);
    assert(t29 * s2 == (108) * mn(p, 2, 1, 3, 0, 2, 4, 1));
    lemma_tm(p, -36, 1, 0, 3, 0, 2, 2, 1, -6, 1, 0, 1, 0, 1, 1, 0);
    assert(t29 * s3 == (216) * mn(p, 2, 0, 4, 0, 3, 3, 1));
    lemma_tm(p, -36, 1, 0, 3, 0, 2, 2, 1, 1, 0, 2, 0, 0, 1, 1, 0);
    assert(t29 * s4 == (-36) * mn(p, 1, 2, 3, 0, 3, 3, 1));
    lemma_tm(p, -36, 1, 0, 3, 0, 2, 2, 1, -6, 0, 1, 1, 1, 0, 1, 0);
    assert(t29 * s5 == (216) * mn(p, 1, 1, 4, 1, 2, 3, 1));
    lemma_tm(p, -36, 1, 0, 3, 0, 2, 2, 1, 1, 0, 1, 1, 0, 2, 0, 0);
    assert(t29 * s6 == (-36) * mn(p, 1, 1, 4, 0, 4, 2, 1));
    lemma_tm(p, -36, 1, 0, 3, 0, 2, 2, 1, 3, 0, 1, 1, 0, 0, 2, 1);
    assert(t29 * s7 == (-108) * mn(p, 1, 1, 4, 0, 2, 4, 2));
    lemma_tm(p, -36, 1, 0, 3, 0, 2, 2, 1, -3, 0, 0, 2, 1, 1, 0, 0);
    assert(t29 * s8 == (108) * mn(p, 1, 0, 5, 1, 3, 2, 1));
    lemma_tm(p, -36, 1, 0, 3, 0, 2, 2, 1, 3, 0, 0, 2, 0, 1, 1, 1);
    assert(t29 * s9 == (-108) * mn(p, 1, 0, 5, 0, 3, 3, 2));
    assert(t29 * q == (-108) * mn(p, 3, 0, 3, 1, 3, 2, 1) + (-108) * mn(p, 2, 1, 3, 2, 2, 2, 1) + (108) * mn(p, 2, 1, 3, 0, 2, 4, 1) + (216) * mn(p, 2, 0, 4, 0, 3, 3, 1) + (-36) * mn(p, 1, 2, 3, 0, 3, 3, 1) + (216) * mn(p, 1, 1, 4, 1, 2, 3, 1) + (-36) * mn(p, 1, 1, 4, 0, 4, 2, 1) + (-108) * mn(p, 1, 1, 4, 0, 2, 4, 2) + (108) * mn(p, 1, 0, 5, 1, 3, 2, 1) + (-108) * mn(p, 1, 0, 5, 0, 3, 3, 2));
    lemma_tm(p, 1, 0, 4, 0, 0, 2, 2, 0, 3, 2, 0, 0, 1, 1, 0, 0);
    assert(t30 * s0 == (3) * mn(p, 2, 4, 0, 1, 3, 2, 0));
    lemma_tm(p, 1, 0, 4, 0, 0, 2, 2, 0, 3, 1, 1, 0, 2, 0, 0, 0);
    assert(t30 * s1 == (3) * mn(p, 1, 5, 0, 2, 2, 2, 0));
    lemma_tm(p, 1, 0, 4, 0, 0, 2, 2, 0, -3, 1, 1, 0, 0, 0, 2, 0);
    assert(t30 * s2 == (-3) * mn(p, 1, 5, 0, 0, 2, 4, 0));
    lemma_tm(p, 1, 0, 4, 0, 0, 2, 2, 0, -6, 1, 0, 1, 0, 1, 1, 0);
    assert(t30 * s3 == (-6) * mn(p, 1, 4, 1, 0, 3, 3, 0));
    lemma_tm(p, 1, 0, 4, 0, 0, 2, 2, 0, 1, 0, 2, 0, 0, 1, 1, 0);
    assert(t30 * s4 == (1) * mn(p, 0, 6, 0, 0, 3, 3, 0));
    lemma_tm(p, 1, 0, 4, 0, 0, 2, 2, 0, -6, 0, 1, 1, 1, 0, 1, 0);
    assert(t30 * s5 == (-6) * mn(p, 0, 5, 1, 1, 2, 3, 0));
    lemma_tm(p, 1, 0, 4, 0, 0, 2, 2, 0, 1, 0, 1, 1, 0, 2, 0, 0);
    assert(t30 * s6 == (1) * mn(p, 0, 5, 1, 0, 4, 2, 0));
    lemma_tm(p, 1, 0, 4, 0, 0, 2, 2, 0, 3, 0, 1, 1, 0, 0, 2, 1);
    assert(t30 * s7 == (3) * mn(p, 0, 5, 1, 0, 2, 4, 1));
    lemma_tm(p, 1, 0, 4, 0, 0, 2, 2, 0, -3, 0, 0, 2, 1, 1, 0, 0);
    assert(t30 * s8 == (-3) * mn(p, 0, 4, 2, 1, 3, 2, 0));
    lemma_tm(p, 1, 0, 4, 0, 0, 2, 2, 0, 3, 0, 0, 2, 0, 1, 1, 1);
    assert(t30 * s9 == (3) * mn(p, 0, 4, 2, 0, 3, 3, 1));
    assert(t30 * q == (3) * mn(p, 2, 4, 0, 1, 3, 2, 0) + (3) * mn(p, 1, 5, 0, 2, 2, 2, 0) + (-3) * mn(p, 1, 5, 0, 0, 2, 4, 0) + (-6) * mn(p, 1, 4, 1, 0, 3, 3, 0) + (1) * mn(p, 0, 6, 0, 0, 3, 3, 0) + (-6) * mn(p, 0, 5, 1, 1, 2, 3, 0) + (1) * mn(p, 0, 5, 1, 0, 4, 2, 0) + (3) * mn(p, 0, 5, 1, 0, 2, 4, 1) + (-3) * mn(p, 0, 4, 2, 1, 3, 2, 0) + (3) * mn(p, 0, 4, 2, 0, 3, 3, 1));
    lemma_tm(p, -12, 0, 3, 1, 1, 1, 2, 0, 3, 2, 0, 0, 1, 1, 0, 0);
    assert(t31 * s0 == (-36) * mn(p, 2, 3, 1, 2, 2, 2, 0));
    lemma_tm(p, -12, 0, 3, 1, 1, 1, 2, 0, 3, 1, 1, 0, 2, 0, 0, 0);
    assert(t31 * s1 == (-36) * mn(p, 1, 4, 1, 3, 1, 2, 0));
    lemma_tm(p, -12, 0, 3, 1, 1, 1, 2, 0, -3, 1, 1, 0, 0, 0, 2, 0);
    assert(t31 * s2 == (36) * mn(p, 1, 4, 1, 1, 1, 4, 0));
    lemma_tm(p, -12, 0, 3, 1, 1, 1, 2, 0, -6, 1, 0, 1, 0, 1, 1, 0);
    assert(t31 * s3 == (72) * mn(p, 1, 3, 2, 1, 2, 3, 0));
    lemma_tm(p, -12, 0, 3, 1, 1, 1, 2, 0, 1, 0, 2, 0, 0, 1, 1, 0);
    assert(t31 * s4 == (-12) * mn(p, 0, 5, 1, 1, 2, 3, 0));
    lemma_tm(p, -12, 0, 3, 1, 1, 1, 2, 0, -6, 0, 1, 1, 1, 0, 1, 0);
    assert(t31 * s5 == (72) * mn(p, 0, 4, 2, 2, 1, 3, 0));
    lemma_tm(p, -12, 0, 3, 1, 1, 1, 2, 0, 1, 0, 1, 1, 0, 2, 0, 0);
    assert(t31 * s6 == (-12) * mn(p, 0, 4, 2, 1, 3, 2, 0));
    lemma_tm(p, -12, 0, 3, 1, 1, 1, 2, 0, 3, 0, 1, 1, 0, 0, 2, 1);
    assert(t31 * s7 == (-36) * mn(p, 0, 4, 2, 1, 1, 4, 1));
    lemma_tm(p, -12, 0, 3, 1, 1, 1, 2, 0, -3, 0, 0, 2, 1, 1, 0, 0);
    assert(t31 * s8 == (36) * mn(p, 0, 3, 3, 2, 2, 2, 0));
    lemma_tm(p, -12, 0, 3, 1, 1, 1, 2, 0, 3, 0, 0, 2, 0, 1, 1, 1);
    assert(t31 * s9 == (-36) * mn(p, 0, 3, 3, 1, 2, 3, 1));
    assert(t31 * q == (-36) * mn(p, 2, 3, 1, 2, 2, 2, 0) + (-36) * mn(p, 1, 4, 1, 3, 1, 2, 0) + (36) * mn(p, 1, 4, 1, 1, 1, 4, 0) + (72) * mn(p, 1, 3, 2, 1, 2, 3, 0) + (-12) * mn(p, 0, 5, 1, 1, 2, 3, 0) + (72) * mn(p, 0, 4, 2, 2, 1, 3, 0) + (-12) * mn(p, 0, 4, 2, 1, 3, 2, 0) + (-36) * mn(p, 0, 4, 2, 1, 1, 4, 1) + (36) * mn(p, 0, 3, 3, 2, 2, 2, 0) + (-36) * mn(p, 0, 3, 3, 1, 2, 3, 1));
    assert(pp31 * q == ((((((((27) * mn(p, 6, 0, 0, 3, 3, 0, 0) + (81) * mn(p, 5, 1, 0, 4, 2, 0, 0)) + ((-81) * mn(p, 5, 1, 0, 2, 2, 2, 0) + (-162) * mn(p, 5, 0, 1, 2, 3, 1, 0))) + (((81) * mn(p, 4, 2, 0, 5, 1, 0, 0) + (-162) * mn(p, 4, 2, 0, 3, 1, 2, 0)) + ((27) * mn(p, 4, 2, 0, 2, 3, 1, 0) + (81) * mn(p, 4, 2, 0, 1, 1, 4, 0)))) + ((((-486) * mn(p, 4, 1, 1, 3, 2, 1, 0) + (27) * mn(p, 4, 1, 1, 2, 4, 0, 0)) + ((81) * mn(p, 4, 1, 1, 2, 2, 2, 1) + (324) * mn(p, 4, 1, 1, 1, 2, 3, 0))) + (((-81) * mn(p, 4, 0, 2, 3, 3, 0, 0) + (81) * mn(p, 4, 0, 2, 2, 3, 1, 1)) + ((324) * mn(p, 4, 0, 2, 1, 3, 2, 0) + (27) * mn(p, 3, 3, 0, 6, 0, 0, 0))))) + (((((-81) * mn(p, 3, 3, 0, 4, 0, 2, 0) + (54) * mn(p, 3, 3, 0, 3, 2, 1, 0)) + ((81) * mn(p, 3, 3, 0, 2, 0, 4, 0) + (-54) * mn(p, 3, 3, 0, 1, 2, 3, 0))) + (((-27) * mn(p, 3, 3, 0, 0, 0, 6, 0) + (-486) * mn(p, 3, 2, 1, 4, 1, 1, 0)) + ((54) * mn(p, 3, 2, 1, 3, 3, 0, 0) + (162) * mn(p, 3, 2, 1, 3, 1, 2, 1)))) + ((((648) * mn(p, 3, 2, 1, 2, 1, 3, 0) + (-162) * mn(p, 3, 2, 1, 1, 3, 2, 0)) + ((-162) * mn(p, 3, 2, 1, 1, 1, 4, 1) + (-162) * mn(p, 3, 2, 1, 0, 1, 5, 0))) + (((-162) * mn(p, 3, 1, 2, 4, 2, 0, 0) + (162) * mn(p, 3, 1, 2, 3, 2, 1, 1)) + ((1134) * mn(p, 3, 1, 2, 2, 2, 2, 0) + (-108) * mn(p, 3, 1, 2, 1, 4, 1, 0)))))) + ((((((-486) * mn(p, 3, 1, 2, 1, 2, 3, 1) + (-324) * mn(p, 3, 1, 2, 0, 2, 4, 0)) + ((324) * mn(p, 3, 0, 3, 2, 3, 1, 0) + (-324) * mn(p, 3, 0, 3, 1, 3, 2, 1))) + (((-216) * mn(p, 3, 0, 3, 0, 3, 3, 0) + (27) * mn(p, 2, 4, 0, 4, 1, 1, 0)) + ((-54) * mn(p, 2, 4, 0, 2, 1, 3, 0) + (9) * mn(p, 2, 4, 0, 1, 3, 2, 0)))) + ((((27) * mn(p, 2, 4, 0, 0, 1, 5, 0) + (-162) * mn(p, 2, 3, 1, 5, 0, 1, 0)) + ((27) * mn(p, 2, 3, 1, 4, 2, 0, 0) + (81) * mn(p, 2, 3, 1, 4, 0, 2, 1))) + (((324) * mn(p, 2, 3, 1, 3, 0, 3, 0) + (-270) * mn(p, 2, 3, 1, 2, 2, 2, 0)) + ((-162) * mn(p, 2, 3, 1, 2, 0, 4, 1) + (12) * mn(p, 2, 3, 1, 1, 4, 1, 0))))) + (((((36) * mn(p, 2, 3, 1, 1, 2, 3, 1) + (-162) * mn(p, 2, 3, 1, 1, 0, 5, 0)) + ((135) * mn(p, 2, 3, 1, 0, 2, 4, 0) + (81) * mn(p, 2, 3, 1, 0, 0, 6, 1))) + (((-81) * mn(p, 2, 2, 2, 5, 1, 0, 0) + (81) * mn(p, 2, 2, 2, 4, 1, 1, 1)) + ((1026) * mn(p, 2, 2, 2, 3, 1, 2, 0) + (-216) * mn(p, 2, 2, 2, 2, 3, 1, 0)))) + ((((-702) * mn(p, 2, 2, 2, 2, 1, 3, 1) + (6) * mn(p, 2, 2, 2, 1, 5, 0, 0)) + ((72) * mn(p, 2, 2, 2, 1, 3, 2, 1) + (54) * mn(p, 2, 2, 2, 1, 1, 4, 2))) + (((-729) * mn(p, 2, 2, 2, 1, 1, 4, 0) + (216) * mn(p, 2, 2, 2, 0, 3, 3, 0)) + ((405) * mn(p, 2, 2, 2, 0, 1, 5, 1) + (540) * mn(p, 2, 1, 3, 3, 2, 1, 0))))))) + (((((((-36) * mn(p, 2, 1, 3, 2, 4, 0, 0) + (-648) * mn(p, 2, 1, 3, 2, 2, 2, 1)) + ((36) * mn(p, 2, 1, 3, 1, 4, 1, 1) + (108) * mn(p, 2, 1, 3, 1, 2, 3, 2))) + (((-972) * mn(p, 2, 1, 3, 1, 2, 3, 0) + (108) * mn(p, 2, 1, 3, 0, 4, 2, 0)) + ((648) * mn(p, 2, 1, 3, 0, 2, 4, 1) + (54) * mn(p, 2, 0, 4, 3, 3, 0, 0)))) + ((((-108) * mn(p, 2, 0, 4, 2, 3, 1, 1) + (54) * mn(p, 2, 0, 4, 1, 3, 2, 2)) + ((-324) * mn(p, 2, 0, 4, 1, 3, 2, 0) + (324) * mn(p, 2, 0, 4, 0, 3, 3, 1))) + (((9) * mn(p, 1, 5, 0, 2, 2, 2, 0) + (-9) * mn(p, 1, 5, 0, 0, 2, 4, 0)) + ((-108) * mn(p, 1, 4, 1, 3, 1, 2, 0) + (12) * mn(p, 1, 4, 1, 2, 3, 1, 0))))) + (((((36) * mn(p, 1, 4, 1, 2, 1, 3, 1) + (108) * mn(p, 1, 4, 1, 1, 1, 4, 0)) + ((-30) * mn(p, 1, 4, 1, 0, 3, 3, 0) + (-36) * mn(p, 1, 4, 1, 0, 1, 5, 1))) + (((216) * mn(p, 1, 3, 2, 4, 0, 2, 0) + (-108) * mn(p, 1, 3, 2, 3, 2, 1, 0)) + ((-216) * mn(p, 1, 3, 2, 3, 0, 3, 1) + (6) * mn(p, 1, 3, 2, 2, 4, 0, 0)))) + ((((72) * mn(p, 1, 3, 2, 2, 2, 2, 1) + (54) * mn(p, 1, 3, 2, 2, 0, 4, 2)) + ((-216) * mn(p, 1, 3, 2, 2, 0, 4, 0) + (324) * mn(p, 1, 3, 2, 1, 2, 3, 0))) + (((216) * mn(p, 1, 3, 2, 1, 0, 5, 1) + (-30) * mn(p, 1, 3, 2, 0, 4, 2, 0)) + ((-144) * mn(p, 1, 3, 2, 0, 2, 4, 1) + (-54) * mn(p, 1, 3, 2, 0, 0, 6, 2)))))) + ((((((216) * mn(p, 1, 2, 3, 4, 1, 1, 0) + (-36) * mn(p, 1, 2, 3, 3, 3, 0, 0)) + ((-324) * mn(p, 1, 2, 3, 3, 1, 2, 1) + (36) * mn(p, 1, 2, 3, 2, 3, 1, 1))) + (((108) * mn(p, 1, 2, 3, 2, 1, 3, 2) + (-648) * mn(p, 1, 2, 3, 2, 1, 3, 0)) + ((252) * mn(p, 1, 2, 3, 1, 3, 2, 0) + (756) * mn(p, 1, 2, 3, 1, 1, 4, 1)))) + ((((-12) * mn(p, 1, 2, 3, 0, 5, 1, 0) + (-180) * mn(p, 1, 2, 3, 0, 3, 3, 1)) + ((-216) * mn(p, 1, 2, 3, 0, 1, 5, 2) + (54) * mn(p, 1, 1, 4, 4, 2, 0, 0))) + (((-108) * mn(p, 1, 1, 4, 3, 2, 1, 1) + (54) * mn(p, 1, 1, 4, 2, 2, 2, 2)) + ((-486) * mn(p, 1, 1, 4, 2, 2, 2, 0) + (72) * mn(p, 1, 1, 4, 1, 4, 1, 0))))) + (((((756) * mn(p, 1, 1, 4, 1, 2, 3, 1) + (-72) * mn(p, 1, 1, 4, 0, 4, 2, 1)) + ((-270) * mn(p, 1, 1, 4, 0, 2, 4, 2) + (-108) * mn(p, 1, 0, 5, 2, 3, 1, 0))) + (((216) * mn(p, 1, 0, 5, 1, 3, 2, 1) + (-108) * mn(p, 1, 0, 5, 0, 3, 3, 2)) + ((1) * mn(p, 0, 6, 0, 0, 3, 3, 0) + (-18) * mn(p, 0, 5, 1, 1, 2, 3, 0)))) + ((((1) * mn(p, 0, 5, 1, 0, 4, 2, 0) + (3) * mn(p, 0, 5, 1, 0, 2, 4, 1)) + ((72) * mn(p, 0, 4, 2, 2, 1, 3, 0) + (-15) * mn(p, 0, 4, 2, 1, 3, 2, 0))) + (((-36) * mn(p, 0, 4, 2, 1, 1, 4, 1) + (3) * mn(p, 0, 4, 2, 0, 3, 3, 1)) + ((36) * mn(p, 0, 3, 3, 2, 2, 2, 0) + (-36) * mn(p, 0, 3, 3, 1, 2, 3, 1)))))))));
    assert(pp31 == ((((((9) * mn(p, 4, 0, 0, 2, 2, 0, 0) + (18) * mn(p, 3, 1, 0, 3, 1, 0, 0)) + ((-18) * mn(p, 3, 1, 0, 1, 1, 2, 0) + (-36) * mn(p, 3, 0, 1, 1, 2, 1, 0))) + (((9) * mn(p, 2, 2, 0, 4, 0, 0, 0) + (-18) * mn(p, 2, 2, 0, 2, 0, 2, 0)) + ((6) * mn(p, 2, 2, 0, 1, 2, 1, 0) + (9) * mn(p, 2, 2, 0, 0, 0, 4, 0)))) + ((((-72) * mn(p, 2, 1, 1, 2, 1, 1, 0) + (6) * mn(p, 2, 1, 1, 1, 3, 0, 0)) + ((18) * mn(p, 2, 1, 1, 1, 1, 2, 1) + (36) * mn(p, 2, 1, 1, 0, 1, 3, 0))) + (((-18) * mn(p, 2, 0, 2, 2, 2, 0, 0) + (18) * mn(p, 2, 0, 2, 1, 2, 1, 1)) + ((36) * mn(p, 2, 0, 2, 0, 2, 2, 0) + (6) * mn(p, 1, 3, 0, 2, 1, 1, 0))))) + (((((-6) * mn(p, 1, 3, 0, 0, 1, 3, 0) + (-36) * mn(p, 1, 2, 1, 3, 0, 1, 0)) + ((6) * mn(p, 1, 2, 1, 2, 2, 0, 0) + (18) * mn(p, 1, 2, 1, 2, 0, 2, 1))) + (((36) * mn(p, 1, 2, 1, 1, 0, 3, 0) + (-18) * mn(p, 1, 2, 1, 0, 2, 2, 0)) + ((-18) * mn(p, 1, 2, 1, 0, 0, 4, 1) + (-18) * mn(p, 1, 1, 2, 3, 1, 0, 0)))) + ((((18) * mn(p, 1, 1, 2, 2, 1, 1, 1) + (90) * mn(p, 1, 1, 2, 1, 1, 2, 0)) + ((-12) * mn(p, 1, 1, 2, 0, 3, 1, 0) + (-54) * mn(p, 1, 1, 2, 0, 1, 3, 1))) + (((36) * mn(p, 1, 0, 3, 1, 2, 1, 0) + (-36) * mn(p, 1, 0, 3, 0, 2, 2, 1)) + ((1) * mn(p, 0, 4, 0, 0, 2, 2, 0) + (-12) * mn(p, 0, 3, 1, 1, 1, 2, 0)))))));
    assert(q == ((((3) * mn(p, 2, 0, 0, 1, 1, 0, 0) + (3) * mn(p, 1, 1, 0, 2, 0, 0, 0)) + ((-3) * mn(p, 1, 1, 0, 0, 0, 2, 0) + ((-6) * mn(p, 1, 0, 1, 0, 1, 1, 0) + (1) * mn(p, 0, 2, 0, 0, 1, 1, 0)))) + (((-6) * mn(p, 0, 1, 1, 1, 0, 1, 0) + (1) * mn(p, 0, 1, 1, 0, 2, 0, 0)) + ((3) * mn(p, 0, 1, 1, 0, 0, 2, 1) + ((-3) * mn(p, 0, 0, 2, 1, 1, 0, 0) + (3) * mn(p, 0, 0, 2, 0, 1, 1, 1))))));
}

#[verifier::rlimit(100)]
proof fn acb_prod18_c1(p: Pt)
    ensures
        ((((((2) * mn(p, 0, 3, 1, 0, 3, 1, 0) + (6) * mn(p, 0, 3, 1, 0, 1, 3, 1)) + ((36) * mn(p, 0, 2, 2, 2, 0, 2, 0) + (-18) * mn(p, 0, 2, 2, 1, 2, 1, 0))) + (((-36) * mn(p, 0, 2, 2, 1, 0, 3, 1) + (1) * mn(p, 0, 2, 2, 0, 4, 0, 0)) + ((12) * mn(p, 0, 2, 2, 0, 2, 2, 1) + (9) * mn(p, 0, 2, 2, 0, 0, 4, 2)))) + ((((36) * mn(p, 0, 1, 3, 2, 1, 1, 0) + (-6) * mn(p, 0, 1, 3, 1, 3, 0, 0)) + ((-54) * mn(p, 0, 1, 3, 1, 1, 2, 1) + (6) * mn(p, 0, 1, 3, 0, 3, 1, 1))) + (((18) * mn(p, 0, 1, 3, 0, 1, 3, 2) + (9) * mn(p, 0, 0, 4, 2, 2, 0, 0)) + ((-18) * mn(p, 0, 0, 4, 1, 2, 1, 1) + (9) * mn(p, 0, 0, 4, 0, 2, 2, 2)))))) * (((((3) * mn(p, 2, 0, 0, 1, 1, 0, 0) + (3) * mn(p, 1, 1, 0, 2, 0, 0, 0)) + ((-3) * mn(p, 1, 1, 0, 0, 0, 2, 0) + ((-6) * mn(p, 1, 0, 1, 0, 1, 1, 0) + (1) * mn(p, 0, 2, 0, 0, 1, 1, 0)))) + (((-6) * mn(p, 0, 1, 1, 1, 0, 1, 0) + (1) * mn(p, 0, 1, 1, 0, 2, 0, 0)) + ((3) * mn(p, 0, 1, 1, 0, 0, 2, 1) + ((-3) * mn(p, 0, 0, 2, 1, 1, 0, 0) + (3) * mn(p, 0, 0, 2, 0, 1, 1, 1)))))) == (((((((6) * mn(p, 2, 3, 1, 1, 4, 1, 0) + (18) * mn(p, 2, 3, 1, 1, 2, 3, 1)) + ((108) * mn(p, 2, 2, 2, 3, 1, 2, 0) + ((-54) * mn(p, 2, 2, 2, 2, 3, 1, 0) + (-108) * mn(p, 2, 2, 2, 2, 1, 3, 1)))) + (((3) * mn(p, 2, 2, 2, 1, 5, 0, 0) + ((36) * mn(p, 2, 2, 2, 1, 3, 2, 1) + (27) * mn(p, 2, 2, 2, 1, 1, 4, 2))) + ((108) * mn(p, 2, 1, 3, 3, 2, 1, 0) + ((-18) * mn(p, 2, 1, 3, 2, 4, 0, 0) + (-162) * mn(p, 2, 1, 3, 2, 2, 2, 1))))) + ((((18) * mn(p, 2, 1, 3, 1, 4, 1, 1) + ((54) * mn(p, 2, 1, 3, 1, 2, 3, 2) + (27) * mn(p, 2, 0, 4, 3, 3, 0, 0))) + ((-54) * mn(p, 2, 0, 4, 2, 3, 1, 1) + ((27) * mn(p, 2, 0, 4, 1, 3, 2, 2) + (6) * mn(p, 1, 4, 1, 2, 3, 1, 0)))) + (((18) * mn(p, 1, 4, 1, 2, 1, 3, 1) + ((-6) * mn(p, 1, 4, 1, 0, 3, 3, 0) + (-18) * mn(p, 1, 4, 1, 0, 1, 5, 1))) + ((108) * mn(p, 1, 3, 2, 4, 0, 2, 0) + ((-54) * mn(p, 1, 3, 2, 3, 2, 1, 0) + (-108) * mn(p, 1, 3, 2, 3, 0, 3, 1)))))) + (((((3) * mn(p, 1, 3, 2, 2, 4, 0, 0) + (36) * mn(p, 1, 3, 2, 2, 2, 2, 1)) + ((27) * mn(p, 1, 3, 2, 2, 0, 4, 2) + ((-108) * mn(p, 1, 3, 2, 2, 0, 4, 0) + (54) * mn(p, 1, 3, 2, 1, 2, 3, 0)))) + (((108) * mn(p, 1, 3, 2, 1, 0, 5, 1) + ((-15) * mn(p, 1, 3, 2, 0, 4, 2, 0) + (-72) * mn(p, 1, 3, 2, 0, 2, 4, 1))) + ((-27) * mn(p, 1, 3, 2, 0, 0, 6, 2) + ((108) * mn(p, 1, 2, 3, 4, 1, 1, 0) + (-18) * mn(p, 1, 2, 3, 3, 3, 0, 0))))) + ((((-162) * mn(p, 1, 2, 3, 3, 1, 2, 1) + ((18) * mn(p, 1, 2, 3, 2, 3, 1, 1) + (54) * mn(p, 1, 2, 3, 2, 1, 3, 2))) + ((-324) * mn(p, 1, 2, 3, 2, 1, 3, 0) + ((126) * mn(p, 1, 2, 3, 1, 3, 2, 0) + (378) * mn(p, 1, 2, 3, 1, 1, 4, 1)))) + (((-6) * mn(p, 1, 2, 3, 0, 5, 1, 0) + ((-90) * mn(p, 1, 2, 3, 0, 3, 3, 1) + (-108) * mn(p, 1, 2, 3, 0, 1, 5, 2))) + ((27) * mn(p, 1, 1, 4, 4, 2, 0, 0) + ((-54) * mn(p, 1, 1, 4, 3, 2, 1, 1) + (27) * mn(p, 1, 1, 4, 2, 2, 2, 2))))))) + ((((((-243) * mn(p, 1, 1, 4, 2, 2, 2, 0) + (36) * mn(p, 1, 1, 4, 1, 4, 1, 0)) + ((378) * mn(p, 1, 1, 4, 1, 2, 3, 1) + ((-36) * mn(p, 1, 1, 4, 0, 4, 2, 1) + (-135) * mn(p, 1, 1, 4, 0, 2, 4, 2)))) + (((-54) * mn(p, 1, 0, 5, 2, 3, 1, 0) + ((108) * mn(p, 1, 0, 5, 1, 3, 2, 1) + (-54) * mn(p, 1, 0, 5, 0, 3, 3, 2))) + ((2) * mn(p, 0, 5, 1, 0, 4, 2, 0) + ((6) * mn(p, 0, 5, 1, 0, 2, 4, 1) + (36) * mn(p, 0, 4, 2, 2, 1, 3, 0))))) + ((((-30) * mn(p, 0, 4, 2, 1, 3, 2, 0) + ((-72) * mn(p, 0, 4, 2, 1, 1, 4, 1) + (3) * mn(p, 0, 4, 2, 0, 5, 1, 0))) + ((24) * mn(p, 0, 4, 2, 0, 3, 3, 1) + ((27) * mn(p, 0, 4, 2, 0, 1, 5, 2) + (-216) * mn(p, 0, 3, 3, 3, 0, 3, 0)))) + (((180) * mn(p, 0, 3, 3, 2, 2, 2, 0) + ((324) * mn(p, 0, 3, 3, 2, 0, 4, 1) + (-36) * mn(p, 0, 3, 3, 1, 4, 1, 0))) + ((-234) * mn(p, 0, 3, 3, 1, 2, 3, 1) + ((-162) * mn(p, 0, 3, 3, 1, 0, 5, 2) + (1) * mn(p, 0, 3, 3, 0, 6, 0, 0)))))) + (((((27) * mn(p, 0, 3, 3, 0, 4, 2, 1) + (81) * mn(p, 0, 3, 3, 0, 2, 4, 2)) + ((27) * mn(p, 0, 3, 3, 0, 0, 6, 3) + ((-324) * mn(p, 0, 2, 4, 3, 1, 2, 0) + (135) * mn(p, 0, 2, 4, 2, 3, 1, 0)))) + (((648) * mn(p, 0, 2, 4, 2, 1, 3, 1) + ((-9) * mn(p, 0, 2, 4, 1, 5, 0, 0) + (-216) * mn(p, 0, 2, 4, 1, 3, 2, 1))) + ((-405) * mn(p, 0, 2, 4, 1, 1, 4, 2) + ((9) * mn(p, 0, 2, 4, 0, 5, 1, 1) + (81) * mn(p, 0, 2, 4, 0, 3, 3, 2))))) + ((((81) * mn(p, 0, 2, 4, 0, 1, 5, 3) + ((-162) * mn(p, 0, 1, 5, 3, 2, 1, 0) + (27) * mn(p, 0, 1, 5, 2, 4, 0, 0))) + ((405) * mn(p, 0, 1, 5, 2, 2, 2, 1) + ((-54) * mn(p, 0, 1, 5, 1, 4, 1, 1) + (-324) * mn(p, 0, 1, 5, 1, 2, 3, 2)))) + (((27) * mn(p, 0, 1, 5, 0, 4, 2, 2) + ((81) * mn(p, 0, 1, 5, 0, 2, 4, 3) + (-27) * mn(p, 0, 0, 6, 3, 3, 0, 0))) + ((81) * mn(p, 0, 0, 6, 2, 3, 1, 1) + ((-81) * mn(p, 0, 0, 6, 1, 3, 2, 2) + (27) * mn(p, 0, 0, 6, 0, 3, 3, 3)))))))),
{
    let t0 = (2) * mn(p, 0, 3, 1, 0, 3, 1, 0);
    let t1 = (6) * mn(p, 0, 3, 1, 0, 1, 3, 1);
    let t2 = (36) * mn(p, 0, 2, 2, 2, 0, 2, 0);
    let t3 = (-18) * mn(p, 0, 2, 2, 1, 2, 1, 0);
    let t4 = (-36) * mn(p, 0, 2, 2, 1, 0, 3, 1);
    let t5 = (1) * mn(p, 0, 2, 2, 0, 4, 0, 0);
    let t6 = (12) * mn(p, 0, 2, 2, 0, 2, 2, 1);
    let t7 = (9) * mn(p, 0, 2, 2, 0, 0, 4, 2);
    let t8 = (36) * mn(p, 0, 1, 3, 2, 1, 1, 0);
    let t9 = (-6) * mn(p, 0, 1, 3, 1, 3, 0, 0);
    let t10 = (-54) * mn(p, 0, 1, 3, 1, 1, 2, 1);
    let t11 = (6) * mn(p, 0, 1, 3, 0, 3, 1, 1);
    let t12 = (18) * mn(p, 0, 1, 3, 0, 1, 3, 2);
    let t13 = (9) * mn(p, 0, 0, 4, 2, 2, 0, 0);
    let t14 = (-18) * mn(p, 0, 0, 4, 1, 2, 1, 1);
    let t15 = (9) * mn(p, 0, 0, 4, 0, 2, 2, 2);
    let s0 = (3) * mn(p, 2, 0, 0, 1, 1, 0, 0);
    let s1 = (3) * mn(p, 1, 1, 0, 2, 0, 0, 0);
    let s2 = (-3) * mn(p, 1, 1, 0, 0, 0, 2, 0);
    let s3 = (-6) * mn(p, 1, 0, 1, 0, 1, 1, 0);
    let s4 = (1) * mn(p, 0, 2, 0, 0, 1, 1, 0);
    let s5 = (-6) * mn(p, 0, 1, 1, 1, 0, 1, 0);
    let s6 = (1) * mn(p, 0, 1, 1, 0, 2, 0, 0);
    let s7 = (3) * mn(p, 0, 1, 1, 0, 0, 2, 1);
    let s8 = (-3) * mn(p, 0, 0, 2, 1, 1, 0, 0);
    let s9 = (3) * mn(p, 0, 0, 2, 0, 1, 1, 1);
    let pp0 = t0;
    let pp1 = pp0 + t1;
    let pp2 = pp1 + t2;
    let pp3 = pp2 + t3;
    let pp4 = pp3 + t4;
    let pp5 = pp4 + t5;
    let pp6 = pp5 + t6;
    let pp7 = pp6 + t7;
    let pp8 = pp7 + t8;
    let pp9 = pp8 + t9;
    let pp10 = pp9 + t10;
    let pp11 = pp10 + t11;
    let pp12 = pp11 + t12;
    let pp13 = pp12 + t13;
    let pp14 = pp13 + t14;
    let pp15 = pp14 + t15;
    let qq0 = s0;
    let qq1 = qq0 + s1;
    let qq2 = qq1 + s2;
    let qq3 = qq2 + s3;
    let qq4 = qq3 + s4;
    let qq5 = qq4 + s5;
    let qq6 = qq5 + s6;
    let qq7 = qq6 + s7;
    let qq8 = qq7 + s8;
    let qq9 = qq8 + s9;
    let q = qq9;
    lemma_mul_is_distributive_add_other_way(q, pp0, t1);
    lemma_mul_is_distributive_add_other_way(q, pp1, t2);
    lemma_mul_is_distributive_add_other_way(q, pp2, t3);
    lemma_mul_is_distributive_add_other_way(q, pp3, t4);
    lemma_mul_is_distributive_add_other_way(q, pp4, t5);
    lemma_mul_is_distributive_add_other_way(q, pp5, t6);
    lemma_mul_is_distributive_add_other_way(q, pp6, t7);
    lemma_mul_is_distributive_add_other_way(q, pp7, t8);
    lemma_mul_is_distributive_add_other_way(q, pp8, t9);
    lemma_mul_is_distributive_add_other_way(q, pp9, t10);
    lemma_mul_is_distributive_add_other_way(q, pp10, t11);
    lemma_mul_is_distributive_add_other_way(q, pp11, t12);
    lemma_mul_is_distributive_add_other_way(q, pp12, t13);
    lemma_mul_is_distributive_add_other_way(q, pp13, t14);
    lemma_mul_is_distributive_add_other_way(q, pp14, t15);
    lemma_mul_is_distributive_add(t0, qq0, s1);
    lemma_mul_is_distributive_add(t0, qq1, s2);
    lemma_mul_is_distributive_add(t0, qq2, s3);
    lemma_mul_is_distributive_add(t0, qq3, s4);
    lemma_mul_is_distributive_add(t0, qq4, s5);
    lemma_mul_is_distributive_add(t0, qq5, s6);
    lemma_mul_is_distributive_add(t0, qq6, s7);
    lemma_mul_is_distributive_add(t0, qq7, s8);
    lemma_mul_is_distributive_add(t0, qq8, s9);
    lemma_mul_is_distributive_add(t1, qq0, s1);
    lemma_mul_is_distributive_add(t1, qq1, s2);
    lemma_mul_is_distributive_add(t1, qq2, s3);
    lemma_mul_is_distributive_add(t1, qq3, s4);
    lemma_mul_is_distributive_add(t1, qq4, s5);
    lemma_mul_is_distributive_add(t1, qq5, s6);
    lemma_mul_is_distributive_add(t1, qq6, s7);
    lemma_mul_is_distributive_add(t1, qq7, s8);
    lemma_mul_is_distributive_add(t1, qq8, s9);
    lemma_mul_is_distributive_add(t2, qq0, s1);
    lemma_mul_is_distributive_add(t2, qq1, s2);
    lemma_mul_is_distributive_add(t2, qq2, s3);
    lemma_mul_is_distributive_add(t2, qq3, s4);
    lemma_mul_is_distributive_add(t2, qq4, s5);
    lemma_mul_is_distributive_add(t2, qq5, s6);
    lemma_mul_is_distributive_add(t2, qq6, s7);
    lemma_mul_is_distributive_add(t2, qq7, s8);
    lemma_mul_is_distributive_add(t2, qq8, s9);
    lemma_mul_is_distributive_add(t3, qq0, s1);
    lemma_mul_is_distributive_add(t3, qq1, s2);
    lemma_mul_is_distributive_add(t3, qq2, s3);
    lemma_mul_is_distributive_add(t3, qq3, s4);
    lemma_mul_is_distributive_add(t3, qq4, s5);
    lemma_mul_is_distributive_add(t3, qq5, s6);
    lemma_mul_is_distributive_add(t3, qq6, s7);
    lemma_mul_is_distributive_add(t3, qq7, s8);
    lemma_mul_is_distributive_add(t3, qq8, s9);
    lemma_mul_is_distributive_add(t4, qq0, s1);
    lemma_mul_is_distributive_add(t4, qq1, s2);
    lemma_mul_is_distributive_add(t4, qq2, s3);
    lemma_mul_is_distributive_add(t4, qq3, s4);
    lemma_mul_is_distributive_add(t4, qq4, s5);
    lemma_mul_is_distributive_add(t4, qq5, s6);
    lemma_mul_is_distributive_add(t4, qq6, s7);
    lemma_mul_is_distributive_add(t4, qq7, s8);
    lemma_mul_is_distributive_add(t4, qq8, s9);
    lemma_mul_is_distributive_add(t5, qq0, s1);
    lemma_mul_is_distributive_add(t5, qq1, s2);
    lemma_mul_is_distributive_add(t5, qq2, s3);
    lemma_mul_is_distributive_add(t5, qq3, s4);
    lemma_mul_is_distributive_add(t5, qq4, s5);
    lemma_mul_is_distributive_add(t5, qq5, s6);
    lemma_mul_is_distributive_add(t5, qq6, s7);
    lemma_mul_is_distributive_add(t5, qq7, s8);
    lemma_mul_is_distributive_add(t5, qq8, s9);
    lemma_mul_is_distributive_add(t6, qq0, s1);
    lemma_mul_is_distributive_add(t6, qq1, s2);
    lemma_mul_is_distributive_add(t6, qq2, s3);
    lemma_mul_is_distributive_add(t6, qq3, s4);
    lemma_mul_is_distributive_add(t6, qq4, s5);
    lemma_mul_is_distributive_add(t6, qq5, s6);
    lemma_mul_is_distributive_add(t6, qq6, s7);
    lemma_mul_is_distributive_add(t6, qq7, s8);
    lemma_mul_is_distributive_add(t6, qq8, s9);
    lemma_mul_is_distributive_add(t7, qq0, s1);
    lemma_mul_is_distributive_add(t7, qq1, s2);
    lemma_mul_is_distributive_add(t7, qq2, s3);
    lemma_mul_is_distributive_add(t7, qq3, s4);
    lemma_mul_is_distributive_add(t7, qq4, s5);
    lemma_mul_is_distributive_add(t7, qq5, s6);
    lemma_mul_is_distributive_add(t7, qq6, s7);
    lemma_mul_is_distributive_add(t7, qq7, s8);
    lemma_mul_is_distributive_add(t7, qq8, s9);
    lemma_mul_is_distributive_add(t8, qq0, s1);
    lemma_mul_is_distributive_add(t8, qq1, s2);
    lemma_mul_is_distributive_add(t8, qq2, s3);
    lemma_mul_is_distributive_add(t8, qq3, s4);
    lemma_mul_is_distributive_add(t8, qq4, s5);
    lemma_mul_is_distributive_add(t8, qq5, s6);
    lemma_mul_is_distributive_add(t8, qq6, s7);
    lemma_mul_is_distributive_add(t8, qq7, s8);
    lemma_mul_is_distributive_add(t8, qq8, s9);
    lemma_mul_is_distributive_add(t9, qq0, s1);
    lemma_mul_is_distributive_add(t9, qq1, s2);
    lemma_mul_is_distributive_add(t9, qq2, s3);
    lemma_mul_is_distributive_add(t9, qq3, s4);
    lemma_mul_is_distributive_add(t9, qq4, s5);
    lemma_mul_is_distributive_add(t9, qq5, s6);
    lemma_mul_is_distributive_add(t9, qq6, s7);
    lemma_mul_is_distributive_add(t9, qq7, s8);
    lemma_mul_is_distributive_add(t9, qq8, s9);
    lemma_mul_is_distributive_add(t10, qq0, s1);
    lemma_mul_is_distributive_add(t10, qq1, s2);
    lemma_mul_is_distributive_add(t10, qq2, s3);
    lemma_mul_is_distributive_add(t10, qq3, s4);
    lemma_mul_is_distributive_add(t10, qq4, s5);
    lemma_mul_is_distributive_add(t10, qq5, s6);
    lemma_mul_is_distributive_add(t10, qq6, s7);
    lemma_mul_is_distributive_add(t10, qq7, s8);
    lemma_mul_is_distributive_add(t10, qq8, s9);
    lemma_mul_is_distributive_add(t11, qq0, s1);
    lemma_mul_is_distributive_add(t11, qq1, s2);
    lemma_mul_is_distributive_add(t11, qq2, s3);
    lemma_mul_is_distributive_add(t11, qq3, s4);
    lemma_mul_is_distributive_add(t11, qq4, s5);
    lemma_mul_is_distributive_add(t11, qq5, s6);
    lemma_mul_is_distributive_add(t11, qq6, s7);
    lemma_mul_is_distributive_add(t11, qq7, s8);
    lemma_mul_is_distributive_add(t11, qq8, s9);
    lemma_mul_is_distributive_add(t12, qq0, s1);
    lemma_mul_is_distributive_add(t12, qq1, s2);
    lemma_mul_is_distributive_add(t12, qq2, s3);
    lemma_mul_is_distributive_add(t12, qq3, s4);
    lemma_mul_is_distributive_add(t12, qq4, s5);
    lemma_mul_is_distributive_add(t12, qq5, s6);
    lemma_mul_is_distributive_add(t12, qq6, s7);
    lemma_mul_is_distributive_add(t12, qq7, s8);
    lemma_mul_is_distributive_add(t12, qq8, s9);
    lemma_mul_is_distributive_add(t13, qq0, s1);
    lemma_mul_is_distributive_add(t13, qq1, s2);
    lemma_mul_is_distributive_add(t13, qq2, s3);
    lemma_mul_is_distributive_add(t13, qq3, s4);
    lemma_mul_is_distributive_add(t13, qq4, s5);
    lemma_mul_is_distributive_add(t13, qq5, s6);
    lemma_mul_is_distributive_add(t13, qq6, s7);
    lemma_mul_is_distributive_add(t13, qq7, s8);
    lemma_mul_is_distributive_add(t13, qq8, s9);
    lemma_mul_is_distributive_add(t14, qq0, s1);
    lemma_mul_is_distributive_add(t14, qq1, s2);
    lemma_mul_is_distributive_add(t14, qq2, s3);
    lemma_mul_is_distributive_add(t14, qq3, s4);
    lemma_mul_is_distributive_add(t14, qq4, s5);
    lemma_mul_is_distributive_add(t14, qq5, s6);
    lemma_mul_is_distributive_add(t14, qq6, s7);
    lemma_mul_is_distributive_add(t14, qq7, s8);
    lemma_mul_is_distributive_add(t14, qq8, s9);
    lemma_mul_is_distributive_add(t15, qq0, s1);
    lemma_mul_is_distributive_add(t15, qq1, s2);
    lemma_mul_is_distributive_add(t15, qq2, s3);
    lemma_mul_is_distributive_add(t15, qq3, s4);
    lemma_mul_is_distributive_add(t15, qq4, s5);
    lemma_mul_is_distributive_add(t15, qq5, s6);
    lemma_mul_is_distributive_add(t15, qq6, s7);
    lemma_mul_is_distributive_add(t15, qq7, s8);
    lemma_mul_is_distributive_add(t15, qq8, s9);
    lemma_tm(p, 2, 0, 3, 1, 0, 3, 1, 0, 3, 2, 0, 0, 1, 1, 0, 0);
    assert(t0 * s0 == (6) * mn(p, 2, 3, 1, 1, 4, 1, 0));
    lemma_tm(p, 2, 0, 3, 1, 0, 3, 1, 0, 3, 1, 1, 0, 2, 0, 0, 0);
    assert(t0 * s1 == (6) * mn(p, 1, 4, 1, 2, 3, 1, 0));
    lemma_tm(p, 2, 0, 3, 1, 0, 3, 1, 0, -3, 1, 1, 0, 0, 0, 2, 0);
    assert(t0 * s2 == (-6) * mn(p, 1, 4, 1, 0, 3, 3, 0));
    lemma_tm(p, 2, 0, 3, 1, 0, 3, 1, 0, -6, 1, 0, 1, 0, 1, 1, 0);
    assert(t0 * s3 == (-12) * mn(p, 1, 3, 2, 0, 4, 2, 0));
    lemma_tm(p, 2, 0, 3, 1, 0, 3, 1, 0, 1, 0, 2, 0, 0, 1, 1, 0);
    assert(t0 * s4 == (2) * mn(p, 0, 5, 1, 0, 4, 2, 0));
    lemma_tm(p, 2, 0, 3, 1, 0, 3, 1, 0, -6, 0, 1, 1, 1, 0, 1, 0);
    assert(t0 * s5 == (-12) * mn(p, 0, 4, 2, 1, 3, 2, 0));
    lemma_tm(p, 2, 0, 3, 1, 0, 3, 1, 0, 1, 0, 1, 1, 0, 2, 0, 0);
    assert(t0 * s6 == (2) * mn(p, 0, 4, 2, 0, 5, 1, 0));
    lemma_tm(p, 2, 0, 3, 1, 0, 3, 1, 0, 3, 0, 1, 1, 0, 0, 2, 1);
    assert(t0 * s7 == (6) * mn(p, 0, 4, 2, 0, 3, 3, 1));
    lemma_tm(p, 2, 0, 3, 1, 0, 3, 1, 0, -3, 0, 0, 2, 1, 1, 0, 0);
    assert(t0 * s8 == (-6) * mn(p, 0, 3, 3, 1, 4, 1, 0));
    lemma_tm(p, 2, 0, 3, 1, 0, 3, 1, 0, 3, 0, 0, 2, 0, 1, 1, 1);
    assert(t0 * s9 == (6) * mn(p, 0, 3, 3, 0, 4, 2, 1));
    assert(t0 * q == (6) * mn(p, 2, 3, 1, 1, 4, 1, 0) + (6) * mn(p, 1, 4, 1, 2, 3, 1, 0) + (-6) * mn(p, 1, 4, 1, 0, 3, 3, 0) + (-12) * mn(p, 1, 3, 2, 0, 4, 2, 0) + (2) * mn(p, 0, 5, 1, 0, 4, 2, 0) + (-12) * mn(p, 0, 4, 2, 1, 3, 2, 0) + (2) * mn(p, 0, 4, 2, 0, 5, 1, 0) + (6) * mn(p, 0, 4, 2, 0, 3, 3, 1) + (-6) * mn(p, 0, 3, 3, 1, 4, 1, 0) + (6) * mn(p, 0, 3, 3, 0, 4, 2, 1));
    lemma_tm(p, 6, 0, 3, 1, 0, 1, 3, 1, 3, 2, 0, 0, 1, 1, 0, 0);
    assert(t1 * s0 == (18) * mn(p, 2, 3, 1, 1, 2, 3, 1));
    lemma_tm(p, 6, 0, 3, 1, 0, 1, 3, 1, 3, 1, 1, 0, 2, 0, 0, 0);
    assert(t1 * s1 == (18) * mn(p, 1, 4, 1, 2, 1, 3, 1));
    lemma_tm(p, 6, 0, 3, 1, 0, 1, 3, 1, -3, 1, 1, 0, 0, 0, 2, 0);
    assert(t1 * s2 == (-18) * mn(p, 1, 4, 1, 0, 1, 5, 1));
    lemma_tm(p, 6, 0, 3, 1, 0, 1, 3, 1, -6, 1, 0, 1, 0, 1, 1, 0);
    assert(t1 * s3 == (-36) * mn(p, 1, 3, 2, 0, 2, 4, 1));
    lemma_tm(p, 6, 0, 3, 1, 0, 1, 3, 1, 1, 0, 2, 0, 0, 1, 1, 0);
    assert(t1 * s4 == (6) * mn(p, 0, 5, 1, 0, 2, 4, 1));
    lemma_tm(p, 6, 0, 3, 1, 0, 1, 3, 1, -6, 0, 1, 1, 1, 0, 1, 0);
    assert(t1 * s5 == (-36) * mn(p, 0, 4, 2, 1, 1, 4, 1));
    lemma_tm(p, 6, 0, 3, 1, 0, 1, 3, 1, 1, 0, 1, 1, 0, 2, 0, 0);
    assert(t1 * s6 == (6) * mn(p, 0, 4, 2, 0, 3, 3, 1));
    lemma_tm(p, 6, 0, 3, 1, 0, 1, 3, 1, 3, 0, 1, 1, 0, 0, 2, 1);
    assert(t1 * s7 == (18) * mn(p, 0, 4, 2, 0, 1, 5, 2));
    lemma_tm(p, 6, 0, 3, 1, 0, 1, 3, 1, -3, 0, 0, 2, 1, 1, 0, 0);
    assert(t1 * s8 == (-18) * mn(p, 0, 3, 3, 1, 2, 3, 1));
    lemma_tm(p, 6, 0, 3, 1, 0, 1, 3, 1, 3, 0, 0, 2, 0, 1, 1, 1);
    assert(t1 * s9 == (18) * mn(p, 0, 3, 3, 0, 2, 4, 2));
    assert(t1 * q == (18) * mn(p, 2, 3, 1, 1, 2, 3, 1) + (18) * mn(p, 1, 4, 1, 2, 1, 3, 1) + (-18) * mn(p, 1, 4, 1, 0, 1, 5, 1) + (-36) * mn(p, 1, 3, 2, 0, 2, 4, 1) + (6) * mn(p, 0, 5, 1, 0, 2, 4, 1) + (-36) * mn(p, 0, 4, 2, 1, 1, 4, 1) + (6) * mn(p, 0, 4, 2, 0, 3, 3, 1) + (18) * mn(p, 0, 4, 2, 0, 1, 5, 2) + (-18) * mn(p, 0, 3, 3, 1, 2, 3, 1) + (18) * mn(p, 0, 3, 3, 0, 2, 4, 2));
    lemma_tm(p, 36, 0, 2, 2, 2, 0, 2, 0, 3, 2, 0, 0, 1, 1, 0, 0);
    assert(t2 * s0 == (108) * mn(p, 2, 2, 2, 3, 1, 2, 0));
    lemma_tm(p, 36, 0, 2, 2, 2, 0, 2, 0, 3, 1, 1, 0, 2, 0, 0, 0);
    assert(t2 * s1 == (108) * mn(p, 1, 3, 2, 4, 0, 2, 0));
    lemma_tm(p, 36, 0, 2, 2, 2, 0, 2, 0, -3, 1, 1, 0, 0, 0, 2, 0);
    assert(t2 * s2 == (-108) * mn(p, 1, 3, 2, 2, 0, 4, 0));
    lemma_tm(p, 36, 0, 2, 2, 2, 0, 2, 0, -6, 1, 0, 1, 0, 1, 1, 0);
    assert(t2 * s3 == (-216) * mn(p, 1, 2, 3, 2, 1, 3, 0));
    lemma_tm(p, 36, 0, 2, 2, 2, 0, 2, 0, 1, 0, 2, 0, 0, 1, 1, 0);
    assert(t2 * s4 == (36) * mn(p, 0, 4, 2, 2, 1, 3, 0));
    lemma_tm(p, 36, 0, 2, 2, 2, 0, 2, 0, -6, 0, 1, 1, 1, 0, 1, 0);
    assert(t2 * s5 == (-216) * mn(p, 0, 3, 3, 3, 0, 3, 0));
    lemma_tm(p, 36, 0, 2, 2, 2, 0, 2, 0, 1, 0, 1, 1, 0, 2, 0, 0);
    assert(t2 * s6 == (36) * mn(p, 0, 3, 3, 2, 2, 2, 0));
    lemma_tm(p, 36, 0, 2, 2, 2, 0, 2, 0, 3, 0, 1, 1, 0, 0, 2, 1);
    assert(t2 * s7 == (108) * mn(p, 0, 3, 3, 2, 0, 4, 1));
    lemma_tm(p, 36, 0, 2, 2, 2, 0, 2, 0, -3, 0, 0, 2, 1, 1, 0, 0);
    assert(t2 * s8 == (-108) * mn(p, 0, 2, 4, 3, 1, 2, 0));
    lemma_tm(p, 36, 0, 2, 2, 2, 0, 2, 0, 3, 0, 0, 2, 0, 1, 1, 1);
    assert(t2 * s9 == (108) * mn(p, 0, 2, 4, 2, 1, 3, 1));
    assert(t2 * q == (108) * mn(p, 2, 2, 2, 3, 1, 2, 0) + (108) * mn(p, 1, 3, 2, 4, 0, 2, 0) + (-108) * mn(p, 1, 3, 2, 2, 0, 4, 0) + (-216) * mn(p, 1, 2, 3, 2, 1, 3, 0) + (36) * mn(p, 0, 4, 2, 2, 1, 3, 0) + (-216) * mn(p, 0, 3, 3, 3, 0, 3, 0) + (36) * mn(p, 0, 3, 3, 2, 2, 2, 0) + (108) * mn(p, 0, 3, 3, 2, 0, 4, 1) + (-108) * mn(p, 0, 2, 4, 3, 1, 2, 0) + (108) * mn(p, 0, 2, 4, 2, 1, 3, 1));
    lemma_tm(p, -18, 0, 2, 2, 1, 2, 1, 0, 3, 2, 0, 0, 1, 1, 0, 0);
    assert(t3 * s0 == (-54) * mn(p, 2, 2, 2, 2, 3, 1, 0));
    lemma_tm(p, -18, 0, 2, 2, 1, 2, 1, 0, 3, 1, 1, 0, 2, 0, 0, 0);
    assert(t3 * s1 == (-54) * mn(p, 1, 3, 2, 3, 2, 1, 0));
    lemma_tm(p, -18, 0, 2, 2, 1, 2, 1, 0, -3, 1, 1, 0, 0, 0, 2, 0);
    assert(t3 * s2 == (54) * mn(p, 1, 3, 2, 1, 2, 3, 0));
    lemma_tm(p, -18, 0, 2, 2, 1, 2, 1, 0, -6, 1, 0, 1, 0, 1, 1, 0);
    assert(t3 * s3 == (108) * mn(p, 1, 2, 3, 1, 3, 2, 0));
    lemma_tm(p, -18, 0, 2, 2, 1, 2, 1, 0, 1, 0, 2, 0, 0, 1, 1, 0);
    assert(t3 * s4 == (-18) * mn(p, 0, 4, 2, 1, 3, 2, 0));
    lemma_tm(p, -18, 0, 2, 2, 1, 2, 1, 0, -6, 0, 1, 1, 1, 0, 1, 0);
    assert(t3 * s5 == (108) * mn(p, 0, 3, 3, 2, 2, 2, 0));
    lemma_tm(p, -18, 0, 2, 2, 1, 2, 1, 0, 1, 0, 1, 1, 0, 2, 0, 0);
    assert(t3 * s6 == (-18) * mn(p, 0, 3, 3, 1, 4, 1, 0));
    lemma_tm(p, -18, 0, 2, 2, 1, 2, 1, 0, 3, 0, 1, 1, 0, 0, 2, 1);
    assert(t3 * s7 == (-54) * mn(p, 0, 3, 3, 1, 2, 3, 1));
    lemma_tm(p, -18, 0, 2, 2, 1, 2, 1, 0, -3, 0, 0, 2, 1, 1, 0, 0);
    assert(t3 * s8 == (54) * mn(p, 0, 2, 4, 2, 3, 1, 0));
    lemma_tm(p, -18, 0, 2, 2, 1, 2, 1, 0, 3, 0, 0, 2, 0, 1, 1, 1);
    assert(t3 * s9 == (-54) * mn(p, 0, 2, 4, 1, 3, 2, 1));
    assert(t3 * q == (-54) * mn(p, 2, 2, 2, 2, 3, 1, 0) + (-54) * mn(p, 1, 3, 2, 3, 2, 1, 0) + (54) * mn(p, 1, 3, 2, 1, 2, 3, 0) + (108) * mn(p, 1, 2, 3, 1, 3, 2, 0) + (-18) * mn(p, 0, 4, 2, 1, 3, 2, 0) + (108) * mn(p, 0, 3, 3, 2, 2, 2, 0) + (-18) * mn(p, 0, 3, 3, 1, 4, 1, 0) + (-54) * mn(p, 0, 3, 3, 1, 2, 3, 1) + (54) * mn(p, 0, 2, 4, 2, 3, 1, 0) + (-54) * mn(p, 0, 2, 4, 1, 3, 2, 1));
    lemma_tm(p, -36, 0, 2, 2, 1, 0, 3, 1, 3, 2, 0, 0, 1, 1, 0, 0);
    assert(t4 * s0 == (-108) * mn(p, 2, 2, 2, 2, 1, 3, 1));
    lemma_tm(p, -36, 0, 2, 2, 1, 0, 3, 1, 3, 1, 1, 0, 2, 0, 0, 0);
    assert(t4 * s1 == (-108) * mn(p, 1, 3, 2, 3, 0, 3, 1));
    lemma_tm(p, -36, 0, 2, 2, 1, 0, 3, 1, -3, 1, 1, 0, 0, 0, 2, 0);
    assert(t4 * s2 == (108) * mn(p, 1, 3, 2, 1, 0, 5, 1));
    lemma_tm(p, -36, 0, 2, 2, 1, 0, 3, 1, -6, 1, 0, 1, 0, 1, 1, 0);
    assert(t4 * s3 == (216) * mn(p, 1, 2, 3, 1, 1, 4, 1));
    lemma_tm(p, -36, 0, 2, 2, 1, 0, 3, 1, 1, 0, 2, 0, 0, 1, 1, 0);
    assert(t4 * s4 == (-36) * mn(p, 0, 4, 2, 1, 1, 4, 1));
    lemma_tm(p, -36, 0, 2, 2, 1, 0, 3, 1, -6, 0, 1, 1, 1, 0, 1, 0);
    assert(t4 * s5 == (216) * mn(p, 0, 3, 3, 2, 0, 4, 1));
    lemma_tm(p, -36, 0, 2, 2, 1, 0, 3, 1, 1, 0, 1, 1, 0, 2, 0, 0);
    assert(t4 * s6 == (-36) * mn(p, 0, 3, 3, 1, 2, 3, 1));
    lemma_tm(p, -36, 0, 2, 2, 1, 0, 3, 1, 3, 0, 1, 1, 0, 0, 2, 1);
    assert(t4 * s7 == (-108) * mn(p, 0, 3, 3, 1, 0, 5, 2));
    lemma_tm(p, -36, 0, 2, 2, 1, 0, 3, 1, -3, 0, 0, 2, 1, 1, 0, 0);
    assert(t4 * s8 == (108) * mn(p, 0, 2, 4, 2, 1, 3, 1));
    lemma_tm(p, -36, 0, 2, 2, 1, 0, 3, 1, 3, 0, 0, 2, 0, 1, 1, 1);
    assert(t4 * s9 == (-108) * mn(p, 0, 2, 4, 1, 1, 4, 2));
    assert(t4 * q == (-108) * mn(p, 2, 2, 2, 2, 1, 3, 1) + (-108) * mn(p, 1, 3, 2, 3, 0, 3, 1) + (108) * mn(p, 1, 3, 2, 1, 0, 5, 1) + (216) * mn(p, 1, 2, 3, 1, 1, 4, 1) + (-36) * mn(p, 0, 4, 2, 1, 1, 4, 1) + (216) * mn(p, 0, 3, 3, 2, 0, 4, 1) + (-36) * mn(p, 0, 3, 3, 1, 2, 3, 1) + (-108) * mn(p, 0, 3, 3, 1, 0, 5, 2) + (108) * mn(p, 0, 2, 4, 2, 1, 3, 1) + (-108) * mn(p, 0, 2, 4, 1, 1, 4, 2));
    lemma_tm(p, 1, 0, 2, 2, 0, 4, 0, 0, 3, 2, 0, 0, 1, 1, 0, 0);
    assert(t5 * s0 == (3) * mn(p, 2, 2, 2, 1, 5, 0, 0));
    lemma_tm(p, 1, 0, 2, 2, 0, 4, 0, 0, 3, 1, 1, 0, 2, 0, 0, 0);
    assert(t5 * s1 == (3) * mn(p, 1, 3, 2, 2, 4, 0, 0));
    lemma_tm(p, 1, 0, 2, 2, 0, 4, 0, 0, -3, 1, 1, 0, 0, 0, 2, 0);
    assert(t5 * s2 == (-3) * mn(p, 1, 3, 2, 0, 4, 2, 0));
    lemma_tm(p, 1, 0, 2, 2, 0, 4, 0, 0, -6, 1, 0, 1, 0, 1, 1, 0);
    assert(t5 * s3 == (-6) * mn(p, 1, 2, 3, 0, 5, 1, 0));
    lemma_tm(p, 1, 0, 2, 2, 0, 4, 0, 0, 1, 0, 2, 0, 0, 1, 1, 0);
    assert(t5 * s4 == (1) * mn(p, 0, 4, 2, 0, 5, 1, 0));
    lemma_tm(p, 1, 0, 2, 2, 0, 4, 0, 0, -6, 0, 1, 1, 1, 0, 1, 0);
    assert(t5 * s5 == (-6) * mn(p, 0, 3, 3, 1, 4, 1, 0));
    lemma_tm(p, 1, 0, 2, 2, 0, 4, 0, 0, 1, 0, 1, 1, 0, 2, 0, 0);
    assert(t5 * s6 == (1) * mn(p, 0, 3, 3, 0, 6, 0, 0));
    lemma_tm(p, 1, 0, 2, 2, 0, 4, 0, 0, 3, 0, 1, 1, 0, 0, 2, 1);
    assert(t5 * s7 == (3) * mn(p, 0, 3, 3, 0, 4, 2, 1));
    lemma_tm(p, 1, 0, 2, 2, 0, 4, 0, 0, -3, 0, 0, 2, 1, 1, 0, 0);
    assert(t5 * s8 == (-3) * mn(p, 0, 2, 4, 1, 5, 0, 0));
    lemma_tm(p, 1, 0, 2, 2, 0, 4, 0, 0, 3, 0, 0, 2, 0, 1, 1, 1);
    assert(t5 * s9 == (3) * mn(p, 0, 2, 4, 0, 5, 1, 1));
    assert(t5 * q == (3) * mn(p, 2, 2, 2, 1, 5, 0, 0) + (3) * mn(p, 1, 3, 2, 2, 4, 0, 0) + (-3) * mn(p, 1, 3, 2, 0, 4, 2, 0) + (-6) * mn(p, 1, 2, 3, 0, 5, 1, 0) + (1) * mn(p, 0, 4, 2, 0, 5, 1, 0) + (-6) * mn(p, 0, 3, 3, 1, 4, 1, 0) + (1) * mn(p, 0, 3, 3, 0, 6, 0, 0) + (3) * mn(p, 0, 3, 3, 0, 4, 2, 1) + (-3) * mn(p, 0, 2, 4, 1, 5, 0, 0) + (3) * mn(p, 0, 2, 4, 0, 5, 1, 1));
    lemma_tm(p, 12, 0, 2, 2, 0, 2, 2, 1, 3, 2, 0, 0, 1, 1, 0, 0);
    assert(t6 * s0 == (36) * mn(p, 2, 2, 2, 1, 3, 2, 1));
    lemma_tm(p, 12, 0, 2, 2, 0, 2, 2, 1, 3, 1, 1, 0, 2, 0, 0, 0);
    assert(t6 * s1 == (36) * mn(p, 1, 3, 2, 2, 2, 2, 1));
    lemma_tm(p, 12, 0, 2, 2, 0, 2, 2, 1, -3, 1, 1, 0, 0, 0, 2, 0);
    assert(t6 * s2 == (-36) * mn(p, 1, 3, 2, 0, 2, 4, 1));
    lemma_tm(p, 12, 0, 2, 2, 0, 2, 2, 1, -6, 1, 0, 1, 0, 1, 1, 0);
    assert(t6 * s3 == (-72) * mn(p, 1, 2, 3, 0, 3, 3, 1));
    lemma_tm(p, 12, 0, 2, 2, 0, 2, 2, 1, 1, 0, 2, 0, 0, 1, 1, 0);
    assert(t6 * s4 == (12) * mn(p, 0, 4, 2, 0, 3, 3, 1));
    lemma_tm(p, 12, 0, 2, 2, 0, 2, 2, 1, -6, 0, 1, 1, 1, 0, 1, 0);
    assert(t6 * s5 == (-72) * mn(p, 0, 3, 3, 1, 2, 3, 1));
    lemma_tm(p, 12, 0, 2, 2, 0, 2, 2, 1, 1, 0, 1, 1, 0, 2, 0, 0);
    assert(t6 * s6 == (12) * mn(p, 0, 3, 3, 0, 4, 2, 1));
    lemma_tm(p, 12, 0, 2, 2, 0, 2, 2, 1, 3, 0, 1, 1, 0, 0, 2, 1);
    assert(t6 * s7 == (36) * mn(p, 0, 3, 3, 0, 2, 4, 2));
    lemma_tm(p, 12, 0, 2, 2, 0, 2, 2, 1, -3, 0, 0, 2, 1, 1, 0, 0);
    assert(t6 * s8 == (-36) * mn(p, 0, 2, 4, 1, 3, 2, 1));
    lemma_tm(p, 12, 0, 2, 2, 0, 2, 2, 1, 3, 0, 0, 2, 0, 1, 1, 1);
    assert(t6 * s9 == (36) * mn(p, 0, 2, 4, 0, 3, 3, 2));
    assert(t6 * q == (36) * mn(p, 2, 2, 2, 1, 3, 2, 1) + (36) * mn(p, 1, 3, 2, 2, 2, 2, 1) + (-36) * mn(p, 1, 3, 2, 0, 2, 4, 1) + (-72) * mn(p, 1, 2, 3, 0, 3, 3, 1) + (12) * mn(p, 0, 4, 2, 0, 3, 3, 1) + (-72) * mn(p, 0, 3, 3, 1, 2, 3, 1) + (12) * mn(p, 0, 3, 3, 0, 4, 2, 1) + (36) * mn(p, 0, 3, 3, 0, 2, 4, 2) + (-36) * mn(p, 0, 2, 4, 1, 3, 2, 1) + (36) * mn(p, 0, 2, 4, 0, 3, 3, 2));
    lemma_tm(p, 9, 0, 2, 2, 0, 0, 4, 2, 3, 2, 0, 0, 1, 1, 0, 0);
    assert(t7 * s0 == (27) * mn(p, 2, 2, 2, 1, 1, 4, 2));
    lemma_tm(p, 9, 0, 2, 2, 0, 0, 4, 2, 3, 1, 1, 0, 2, 0, 0, 0);
    assert(t7 * s1 == (27) * mn(p, 1, 3, 2, 2, 0, 4, 2));
    lemma_tm(p, 9, 0, 2, 2, 0, 0, 4, 2, -3, 1, 1, 0, 0, 0, 2, 0);
    assert(t7 * s2 == (-27) * mn(p, 1, 3, 2, 0, 0, 6, 2));
    lemma_tm(p, 9, 0, 2, 2, 0, 0, 4, 2, -6, 1, 0, 1, 0, 1, 1, 0);
    assert(t7 * s3 == (-54) * mn(p, 1, 2, 3, 0, 1, 5, 2));
    lemma_tm(p, 9, 0, 2, 2, 0, 0, 4, 2, 1, 0, 2, 0, 0, 1, 1, 0);
    assert(t7 * s4 == (9) * mn(p, 0, 4, 2, 0, 1, 5, 2));
    lemma_tm(p, 9, 0, 2, 2, 0, 0, 4, 2, -6, 0, 1, 1, 1, 0, 1, 0);
    assert(t7 * s5 == (-54) * mn(p, 0, 3, 3, 1, 0, 5, 2));
    lemma_tm(p, 9, 0, 2, 2, 0, 0, 4, 2, 1, 0, 1, 1, 0, 2, 0, 0);
    assert(t7 * s6 == (9) * mn(p, 0, 3, 3, 0, 2, 4, 2));
    lemma_tm(p, 9, 0, 2, 2, 0, 0, 4, 2, 3, 0, 1, 1, 0, 0, 2, 1);
    assert(t7 * s7 == (27) * mn(p, 0, 3, 3, 0, 0, 6, 3));
    lemma_tm(p, 9, 0, 2, 2, 0, 0, 4, 2, -3, 0, 0, 2, 1, 1, 0, 0);
    assert(t7 * s8 == (-27) * mn(p, 0, 2, 4, 1, 1, 4, 2));
    lemma_tm(p, 9, 0, 2, 2, 0, 0, 4, 2, 3, 0, 0, 2, 0, 1, 1, 1);
    assert(t7 * s9 == (27) * mn(p, 0, 2, 4, 0, 1, 5, 3));
    assert(t7 * q == (27) * mn(p, 2, 2, 2, 1, 1, 4, 2) + (27) * mn(p, 1, 3, 2, 2, 0, 4, 2) + (-27) * mn(p, 1, 3, 2, 0, 0, 6, 2) + (-54) * mn(p, 1, 2, 3, 0, 1, 5, 2) + (9) * mn(p, 0, 4, 2, 0, 1, 5, 2) + (-54) * mn(p, 0, 3, 3, 1, 0, 5, 2) + (9) * mn(p, 0, 3, 3, 0, 2, 4, 2) + (27) * mn(p, 0, 3, 3, 0, 0, 6, 3) + (-27) * mn(p, 0, 2, 4, 1, 1, 4, 2) + (27) * mn(p, 0, 2, 4, 0, 1, 5, 3));
    lemma_tm(p, 36, 0, 1, 3, 2, 1, 1, 0, 3, 2, 0, 0, 1, 1, 0, 0);
    assert(t8 * s0 == (108) * mn(p, 2, 1, 3, 3, 2, 1, 0));
    lemma_tm(p, 36, 0, 1, 3, 2, 1, 1, 0, 3, 1, 1, 0, 2, 0, 0, 0);
    assert(t8 * s1 == (108) * mn(p, 1, 2, 3, 4, 1, 1, 0));
    lemma_tm(p, 36, 0, 1, 3, 2, 1, 1, 0, -3, 1, 1, 0, 0, 0, 2, 0);
    assert(t8 * s2 == (-108) * mn(p, 1, 2, 3, 2, 1, 3, 0));
    lemma_tm(p, 36, 0, 1, 3, 2, 1, 1, 0, -6, 1, 0, 1, 0, 1, 1, 0);
    assert(t8 * s3 == (-216) * mn(p, 1, 1, 4, 2, 2, 2, 0));
    lemma_tm(p, 36, 0, 1, 3, 2, 1, 1, 0, 1, 0, 2, 0, 0, 1, 1, 0);
    assert(t8 * s4 == (36) * mn(p, 0, 3, 3, 2, 2, 2, 0));
    lemma_tm(p, 36, 0, 1, 3, 2, 1, 1, 0, -6, 0, 1, 1, 1, 0, 1, 0);
    assert(t8 * s5 == (-216) * mn(p, 0, 2, 4, 3, 1, 2, 0));
    lemma_tm(p, 36, 0, 1, 3, 2, 1, 1, 0, 1, 0, 1, 1, 0, 2, 0, 0);
    assert(t8 * s6 == (36) * mn(p, 0, 2, 4, 2, 3, 1, 0));
    lemma_tm(p, 36, 0, 1, 3, 2, 1, 1, 0, 3, 0, 1, 1, 0, 0, 2, 1);
    assert(t8 * s7 == (108) * mn(p, 0, 2, 4, 2, 1, 3, 1));
    lemma_tm(p, 36, 0, 1, 3, 2, 1, 1, 0, -3, 0, 0, 2, 1, 1, 0, 0);
    assert(t8 * s8 == (-108) * mn(p, 0, 1, 5, 3, 2, 1, 0));
    lemma_tm(p, 36, 0, 1, 3, 2, 1, 1, 0, 3, 0, 0, 2, 0, 1, 1, 1);
    assert(t8 * s9 == (108) * mn(p, 0, 1, 5, 2, 2, 2, 1));
    assert(t8 * q == (108) * mn(p, 2, 1, 3, 3, 2, 1, 0) + (108) * mn(p, 1, 2, 3, 4, 1, 1, 0) + (-108) * mn(p, 1, 2, 3, 2, 1, 3, 0) + (-216) * mn(p, 1, 1, 4, 2, 2, 2, 0) + (36) * mn(p, 0, 3, 3, 2, 2, 2, 0) + (-216) * mn(p, 0, 2, 4, 3, 1, 2, 0) + (36) * mn(p, 0, 2, 4, 2, 3, 1, 0) + (108) * mn(p, 0, 2, 4, 2, 1, 3, 1) + (-108) * mn(p, 0, 1, 5, 3, 2, 1, 0) + (108) * mn(p, 0, 1, 5, 2, 2, 2, 1));
    lemma_tm(p, -6, 0, 1, 3, 1, 3, 0, 0, 3, 2, 0, 0, 1, 1, 0, 0);
    assert(t9 * s0 == (-18) * mn(p, 2, 1, 3, 2, 4, 0, 0));
    lemma_tm(p, -6, 0, 1, 3, 1, 3, 0, 0, 3, 1, 1, 0, 2, 0, 0, 0);
    assert(t9 * s1 == (-18) * mn(p, 1, 2, 3, 3, 3, 0, 0));
    lemma_tm(p, -6, 0, 1, 3, 1, 3, 0, 0, -3, 1, 1, 0, 0, 0, 2, 0);
    assert(t9 * s2 == (18) * mn(p, 1, 2, 3, 1, 3, 2, 0));
    lemma_tm(p, -6, 0, 1, 3, 1, 3, 0, 0, -6, 1, 0, 1, 0, 1, 1, 0);
    assert(t9 * s3 == (36) * mn(p, 1, 1, 4, 1, 4, 1, 0));
    lemma_tm(p, -6, 0, 1, 3, 1, 3, 0, 0, 1, 0, 2, 0, 0, 1, 1, 0);
    assert(t9 * s4 == (-6) * mn(p, 0, 3, 3, 1, 4, 1, 0));
    lemma_tm(p, -6, 0, 1, 3, 1, 3, 0, 0, -6, 0, 1, 1, 1, 0, 1, 0);
    assert(t9 * s5 == (36) * mn(p, 0, 2, 4, 2, 3, 1, 0));
    lemma_tm(p, -6, 0, 1, 3, 1, 3, 0, 0, 1, 0, 1, 1, 0, 2, 0, 0);
    assert(t9 * s6 == (-6) * mn(p, 0, 2, 4, 1, 5, 0, 0));
    lemma_tm(p, -6, 0, 1, 3, 1, 3, 0, 0, 3, 0, 1, 1, 0, 0, 2, 1);
    assert(t9 * s7 == (-18) * mn(p, 0, 2, 4, 1, 3, 2, 1));
    lemma_tm(p, -6, 0, 1, 3, 1, 3, 0, 0, -3, 0, 0, 2, 1, 1, 0, 0);
    assert(t9 * s8 == (18) * mn(p, 0, 1, 5, 2, 4, 0, 0));
    lemma_tm(p, -6, 0, 1, 3, 1, 3, 0, 0, 3, 0, 0, 2, 0, 1, 1, 1);
    assert(t9 * s9 == (-18) * mn(p, 0, 1, 5, 1, 4, 1, 1));
    assert(t9 * q == (-18) * mn(p, 2, 1, 3, 2, 4, 0, 0) + (-18) * mn(p, 1, 2, 3, 3, 3, 0, 0) + (18) * mn(p, 1, 2, 3, 1, 3, 2, 0) + (36) * mn(p, 1, 1, 4, 1, 4, 1, 0) + (-6) * mn(p, 0, 3, 3, 1, 4, 1, 0) + (36) * mn(p, 0, 2, 4, 2, 3, 1, 0) + (-6) * mn(p, 0, 2, 4, 1, 5, 0, 0) + (-18) * mn(p, 0, 2, 4, 1, 3, 2, 1) + (18) * mn(p, 0, 1, 5, 2, 4, 0, 0) + (-18) * mn(p, 0, 1, 5, 1, 4, 1, 1));
    lemma_tm(p, -54, 0, 1, 3, 1, 1, 2, 1, 3, 2, 0, 0, 1, 1, 0, 0);
    assert(t10 * s0 == (-162) * mn(p, 2, 1, 3, 2, 2, 2, 1));
    lemma_tm(p, -54, 0, 1, 3, 1, 1, 2, 1, 3, 1, 1, 0, 2, 0, 0, 0);
    assert(t10 * s1 == (-162) * mn(p, 1, 2, 3, 3, 1, 2, 1));
    lemma_tm(p, -54, 0, 1, 3, 1, 1, 2, 1, -3, 1, 1, 0, 0, 0, 2, 0);
    assert(t10 * s2 == (162) * mn(p, 1, 2, 3, 1, 1, 4, 1));
    lemma_tm(p, -54, 0, 1, 3, 1, 1, 2, 1, -6, 1, 0, 1, 0, 1, 1, 0);
    assert(t10 * s3 == (324) * mn(p, 1, 1, 4, 1, 2, 3, 1));
    lemma_tm(p, -54, 0, 1, 3, 1, 1, 2, 1, 1, 0, 2, 0, 0, 1, 1, 0);
    assert(t10 * s4 == (-54) * mn(p, 0, 3, 3, 1, 2, 3, 1));
    lemma_tm(p, -54, 0, 1, 3, 1, 1, 2, 1, -6, 0, 1, 1, 1, 0, 1, 0);
    assert(t10 * s5 == (324) * mn(p, 0, 2, 4, 2, 1, 3, 1));
    lemma_tm(p, -54, 0, 1, 3, 1, 1, 2, 1, 1, 0, 1, 1, 0, 2, 0, 0);
    assert(t10 * s6 == (-54) * mn(p, 0, 2, 4, 1, 3, 2, 1));
    lemma_tm(p, -54, 0, 1, 3, 1, 1, 2, 1, 3, 0, 1, 1, 0, 0, 2, 1);
    assert(t10 * s7 == (-162) * mn(p, 0, 2, 4, 1, 1, 4, 2));
    lemma_tm(p, -54, 0, 1, 3, 1, 1, 2, 1, -3, 0, 0, 2, 1, 1, 0, 0);
    assert(t10 * s8 == (162) * mn(p, 0, 1, 5, 2, 2, 2, 1));
    lemma_tm(p, -54, 0, 1, 3, 1, 1, 2, 1, 3, 0, 0, 2, 0, 1, 1, 1);
    assert(t10 * s9 == (-162) * mn(p, 0, 1, 5, 1, 2, 3, 2));
    assert(t10 * q == (-162) * mn(p, 2, 1, 3, 2, 2, 2, 1) + (-162) * mn(p, 1, 2, 3, 3, 1, 2, 1) + (162) * mn(p, 1, 2, 3, 1, 1, 4, 1) + (324) * mn(p, 1, 1, 4, 1, 2, 3, 1) + (-54) * mn(p, 0, 3, 3, 1, 2, 3, 1) + (324) * mn(p, 0, 2, 4, 2, 1, 3, 1) + (-54) * mn(p, 0, 2, 4, 1, 3, 2, 1) + (-162) * mn(p, 0, 2, 4, 1, 1, 4, 2) + (162) * mn(p, 0, 1, 5, 2, 2, 2, 1) + (-162) * mn(p, 0, 1, 5, 1, 2, 3, 2));
    lemma_tm(p, 6, 0, 1, 3, 0, 3, 1, 1, 3, 2, 0, 0, 1, 1, 0, 0);
    assert(t11 * s0 == (18) * mn(p, 2, 1, 3, 1, 4, 1, 1));
    lemma_tm(p, 6, 0, 1, 3, 0, 3, 1, 1, 3, 1, 1, 0, 2, 0, 0, 0);
    assert(t11 * s1 == (18) * mn(p, 1, 2, 3, 2, 3, 1, 1));
    lemma_tm(p, 6, 0, 1, 3, 0, 3, 1, 1, -3, 1, 1, 0, 0, 0, 2, 0);
    assert(t11 * s2 == (-18) * mn(p, 1, 2, 3, 0, 3, 3, 1));
    lemma_tm(p, 6, 0, 1, 3, 0, 3, 1, 1, -6, 1, 0, 1, 0, 1, 1, 0);
    assert(t11 * s3 == (-36) * mn(p, 1, 1, 4, 0, 4, 2, 1));
    lemma_tm(p, 6, 0, 1, 3, 0, 3, 1, 1, 1, 0, 2, 0, 0, 1, 1, 0);
    assert(t11 * s4 == (6) * mn(p, 0, 3, 3, 0, 4, 2, 1));
    lemma_tm(p, 6, 0, 1, 3, 0, 3, 1, 1, -6, 0, 1, 1, 1, 0, 1, 0);
    assert(t11 * s5 == (-36) * mn(p, 0, 2, 4, 1, 3, 2, 1));
    lemma_tm(p, 6, 0, 1, 3, 0, 3, 1, 1, 1, 0, 1, 1, 0, 2, 0, 0);
    assert(t11 * s6 == (6) * mn(p, 0, 2, 4, 0, 5, 1, 1));
    lemma_tm(p, 6, 0, 1, 3, 0, 3, 1, 1, 3, 0, 1, 1, 0, 0, 2, 1);
    assert(t11 * s7 == (18) * mn(p, 0, 2, 4, 0, 3, 3, 2));
    lemma_tm(p, 6, 0, 1, 3, 0, 3, 1, 1, -3, 0, 0, 2, 1, 1, 0, 0);
    assert(t11 * s8 == (-18) * mn(p, 0, 1, 5, 1, 4, 1, 1));
    lemma_tm(p, 6, 0, 1, 3, 0, 3, 1, 1, 3, 0, 0, 2, 0, 1, 1, 1);
    assert(t11 * s9 == (18) * mn(p, 0, 1, 5, 0, 4, 2, 2));
    assert(t11 * q == (18) * mn(p, 2, 1, 3, 1, 4, 1, 1) + (18) * mn(p, 1, 2, 3, 2, 3, 1, 1) + (-18) * mn(p, 1, 2, 3, 0, 3, 3, 1) + (-36) * mn(p, 1, 1, 4, 0, 4, 2, 1) + (6) * mn(p, 0, 3, 3, 0, 4, 2, 1) + (-36) * mn(p, 0, 2, 4, 1, 3, 2, 1) + (6) * mn(p, 0, 2, 4, 0, 5, 1, 1) + (18) * mn(p, 0, 2, 4, 0, 3, 3, 2) + (-18) * mn(p, 0, 1, 5, 1, 4, 1, 1) + (18) * mn(p, 0, 1, 5, 0, 4, 2, 2));
    lemma_tm(p, 18, 0, 1, 3, 0, 1, 3, 2, 3, 2, 0, 0, 1, 1, 0, 0);
    assert(t12 * s0 == (54) * mn(p, 2, 1, 3, 1, 2, 3, 2));
    lemma_tm(p, 18, 0, 1, 3, 0, 1, 3, 2, 3, 1, 1, 0, 2, 0, 0, 0);
    assert(t12 * s1 == (54) * mn(p, 1, 2, 3, 2, 1, 3, 2));
    lemma_tm(p, 18, 0, 1, 3, 0, 1, 3, 2, -3, 1, 1, 0, 0, 0, 2, 0);
    assert(t12 * s2 == (-54) * mn(p, 1, 2, 3, 0, 1, 5, 2));
    lemma_tm(p, 18, 0, 1, 3, 0, 1, 3, 2, -6, 1, 0, 1, 0, 1, 1, 0);
    assert(t12 * s3 == (-108) * mn(p, 1, 1, 4, 0, 2, 4, 2));
    lemma_tm(p, 18, 0, 1, 3, 0, 1, 3, 2, 1, 0, 2, 0, 0, 1, 1, 0);
    assert(t12 * s4 == (18) * mn(p, 0, 3, 3, 0, 2, 4, 2));
    lemma_tm(p, 18, 0, 1, 3, 0, 1, 3, 2, -6, 0, 1, 1, 1, 0, 1, 0);
    assert(t12 * s5 == (-108) * mn(p, 0, 2, 4, 1, 1, 4, 2));
    lemma_tm(p, 18, 0, 1, 3, 0, 1, 3, 2, 1, 0, 1, 1, 0, 2, 0, 0);
    assert(t12 * s6 == (18) * mn(p, 0, 2, 4, 0, 3, 3, 2));
    lemma_tm(p, 18, 0, 1, 3, 0, 1, 3, 2, 3, 0, 1, 1, 0, 0, 2, 1);
    assert(t12 * s7 == (54) * mn(p, 0, 2, 4, 0, 1, 5, 3));
    lemma_tm(p, 18, 0, 1, 3, 0, 1, 3, 2, -3, 0, 0, 2, 1, 1, 0, 0);
    assert(t12 * s8 == (-54) * mn(p, 0, 1, 5, 1, 2, 3, 2));
    lemma_tm(p, 18, 0, 1, 3, 0, 1, 3, 2, 3, 0, 0, 2, 0, 1, 1, 1);
    assert(t12 * s9 == (54) * mn(p, 0, 1, 5, 0, 2, 4, 3));
    assert(t12 * q == (54) * mn(p, 2, 1, 3, 1, 2, 3, 2) + (54) * mn(p, 1, 2, 3, 2, 1, 3, 2) + (-54) * mn(p, 1, 2, 3, 0, 1, 5, 2) + (-108) * mn(p, 1, 1, 4, 0, 2, 4, 2) + (18) * mn(p, 0, 3, 3, 0, 2, 4, 2) + (-108) * mn(p, 0, 2, 4, 1, 1, 4, 2) + (18) * mn(p, 0, 2, 4, 0, 3, 3, 2) + (54) * mn(p, 0, 2, 4, 0, 1, 5, 3) + (-54) * mn(p, 0, 1, 5, 1, 2, 3, 2) + (54) * mn(p, 0, 1, 5, 0, 2, 4, 3));
    lemma_tm(p, 9, 0, 0, 4, 2, 2, 0, 0, 3, 2, 0, 0, 1, 1, 0, 0);
    assert(t13 * s0 == (27) * mn(p, 2, 0, 4, 3, 3, 0, 0));
    lemma_tm(p, 9, 0, 0, 4, 2, 2, 0, 0, 3, 1, 1, 0, 2, 0, 0, 0);
    assert(t13 * s1 == (27) * mn(p, 1, 1, 4, 4, 2, 0, 0));
    lemma_tm(p, 9, 0, 0, 4, 2, 2, 0, 0, -3, 1, 1, 0, 0, 0, 2, 0);
    assert(t13 * s2 == (-27) * mn(p, 1, 1, 4, 2, 2, 2, 0));
    lemma_tm(p, 9, 0, 0, 4, 2, 2, 0, 0, -6, 1, 0, 1, 0, 1, 1, 0);
    assert(t13 * s3 == (-54) * mn(p, 1, 0, 5, 2, 3, 1, 0));
    lemma_tm(p, 9, 0, 0, 4, 2, 2, 0, 0, 1, 0, 2, 0, 0, 1, 1, 0);
    assert(t13 * s4 == (9) * mn(p, 0, 2, 4, 2, 3, 1, 0));
    lemma_tm(p, 9, 0, 0, 4, 2, 2, 0, 0, -6, 0, 1, 1, 1, 0, 1, 0);
    assert(t13 * s5 == (-54) * mn(p, 0, 1, 5, 3, 2, 1, 0));
    lemma_tm(p, 9, 0, 0, 4, 2, 2, 0, 0, 1, 0, 1, 1, 0, 2, 0, 0);
    assert(t13 * s6 == (9) * mn(p, 0, 1, 5, 2, 4, 0, 0));
    lemma_tm(p, 9, 0, 0, 4, 2, 2, 0, 0, 3, 0, 1, 1, 0, 0, 2, 1);
    assert(t13 * s7 == (27) * mn(p, 0, 1, 5, 2, 2, 2, 1));
    lemma_tm(p, 9, 0, 0, 4, 2, 2, 0, 0, -3, 0, 0, 2, 1, 1, 0, 0);
    assert(t13 * s8 == (-27) * mn(p, 0, 0, 6, 3, 3, 0, 0));
    lemma_tm(p, 9, 0, 0, 4, 2, 2, 0, 0, 3, 0, 0, 2, 0, 1, 1, 1);
    assert(t13 * s9 == (27) * mn(p, 0, 0, 6, 2, 3, 1, 1));
    assert(t13 * q == (27) * mn(p, 2, 0, 4, 3, 3, 0, 0) + (27) * mn(p, 1, 1, 4, 4, 2, 0, 0) + (-27) * mn(p, 1, 1, 4, 2, 2, 2, 0) + (-54) * mn(p, 1, 0, 5, 2, 3, 1, 0) + (9) * mn(p, 0, 2, 4, 2, 3, 1, 0) + (-54) * mn(p, 0, 1, 5, 3, 2, 1, 0) + (9) * mn(p, 0, 1, 5, 2, 4, 0, 0) + (27) * mn(p, 0, 1, 5, 2, 2, 2, 1) + (-27) * mn(p, 0, 0, 6, 3, 3, 0, 0) + (27) * mn(p, 0, 0, 6, 2, 3, 1, 1));
    lemma_tm(p, -18, 0, 0, 4, 1, 2, 1, 1, 3, 2, 0, 0, 1, 1, 0, 0);
    assert(t14 * s0 == (-54) * mn(p, 2, 0, 4, 2, 3, 1, 1));
    lemma_tm(p, -18, 0, 0, 4, 1, 2, 1, 1, 3, 1, 1, 0, 2, 0, 0, 0);
    assert(t14 * s1 == (-54) * mn(p, 1, 1, 4, 3, 2, 1, 1));
    lemma_tm(p, -18, 0, 0, 4, 1, 2, 1, 1, -3, 1, 1, 0, 0, 0, 2, 0);
    assert(t14 * s2 == (54) * mn(p, 1, 1, 4, 1, 2, 3, 1));
    lemma_tm(p, -18, 0, 0, 4, 1, 2, 1, 1, -6, 1, 0, 1, 0, 1, 1, 0);
    assert(t14 * s3 == (108) * mn(p, 1, 0, 5, 1, 3, 2, 1));
    lemma_tm(p, -18, 0, 0, 4, 1, 2, 1, 1, 1, 0, 2, 0, 0, 1, 1, 0);
    assert(t14 * s4 == (-18) * mn(p, 0, 2, 4, 1, 3, 2, 1));
    lemma_tm(p, -18, 0, 0, 4, 1, 2, 1, 1, -6, 0, 1, 1, 1, 0, 1, 0);
    assert(t14 * s5 == (108) * mn(p, 0, 1, 5, 2, 2, 2, 1));
    lemma_tm(p, -18, 0, 0, 4, 1, 2, 1, 1, 1, 0, 1, 1, 0, 2, 0, 0);
    assert(t14 * s6 == (-18) * mn(p, 0, 1, 5, 1, 4, 1, 1));
    lemma_tm(p, -18, 0, 0, 4, 1, 2, 1, 1, 3, 0, 1, 1, 0, 0, 2, 1);
    assert(t14 * s7 == (-54) * mn(p, 0, 1, 5, 1, 2, 3, 2));
    lemma_tm(p, -18, 0, 0, 4, 1, 2, 1, 1, -3, 0, 0, 2, 1, 1, 0, 0);
    assert(t14 * s8 == (54) * mn(p, 0, 0, 6, 2, 3, 1, 1));
    lemma_tm(p, -18, 0, 0, 4, 1, 2, 1, 1, 3, 0, 0, 2, 0, 1, 1, 1);
    assert(t14 * s9 == (-54) * mn(p, 0, 0, 6, 1, 3, 2, 2));
    assert(t14 * q == (-54) * mn(p, 2, 0, 4, 2, 3, 1, 1) + (-54) * mn(p, 1, 1, 4, 3, 2, 1, 1) + (54) * mn(p, 1, 1, 4, 1, 2, 3, 1) + (108) * mn(p, 1, 0, 5, 1, 3, 2, 1) + (-18) * mn(p, 0, 2, 4, 1, 3, 2, 1) + (108) * mn(p, 0, 1, 5, 2, 2, 2, 1) + (-18) * mn(p, 0, 1, 5, 1, 4, 1, 1) + (-54) * mn(p, 0, 1, 5, 1, 2, 3, 2) + (54) * mn(p, 0, 0, 6, 2, 3, 1, 1) + (-54) * mn(p, 0, 0, 6, 1, 3, 2, 2));
    lemma_tm(p, 9, 0, 0, 4, 0, 2, 2, 2, 3, 2, 0, 0, 1, 1, 0, 0);
    assert(t15 * s0 == (27) * mn(p, 2, 0, 4, 1, 3, 2, 2));
    lemma_tm(p, 9, 0, 0, 4, 0, 2, 2, 2, 3, 1, 1, 0, 2, 0, 0, 0);
    assert(t15 * s1 == (27) * mn(p, 1, 1, 4, 2, 2, 2, 2));
    lemma_tm(p, 9, 0, 0, 4, 0, 2, 2, 2, -3, 1, 1, 0, 0, 0, 2, 0);
    assert(t15 * s2 == (-27) * mn(p, 1, 1, 4, 0, 2, 4, 2));
    lemma_tm(p, 9, 0, 0, 4, 0, 2, 2, 2, -6, 1, 0, 1, 0, 1, 1, 0);
    assert(t15 * s3 == (-54) * mn(p, 1, 0, 5, 0, 3, 3, 2));
    lemma_tm(p, 9, 0, 0, 4, 0, 2, 2, 2, 1, 0, 2, 0, 0, 1, 1, 0);
    assert(t15 * s4 == (9) * mn(p, 0, 2, 4, 0, 3, 3, 2));
    lemma_tm(p, 9, 0, 0, 4, 0, 2, 2, 2, -6, 0, 1, 1, 1, 0, 1, 0);
    assert(t15 * s5 == (-54) * mn(p, 0, 1, 5, 1, 2, 3, 2));
    lemma_tm(p, 9, 0, 0, 4, 0, 2, 2, 2, 1, 0, 1, 1, 0, 2, 0, 0);
    assert(t15 * s6 == (9) * mn(p, 0, 1, 5, 0, 4, 2, 2));
    lemma_tm(p, 9, 0, 0, 4, 0, 2, 2, 2, 3, 0, 1, 1, 0, 0, 2, 1);
    assert(t15 * s7 == (27) * mn(p, 0, 1, 5, 0, 2, 4, 3));
    lemma_tm(p, 9, 0, 0, 4, 0, 2, 2, 2, -3, 0, 0, 2, 1, 1, 0, 0);
    assert(t15 * s8 == (-27) * mn(p, 0, 0, 6, 1, 3, 2, 2));
    lemma_tm(p, 9, 0, 0, 4, 0, 2, 2, 2, 3, 0, 0, 2, 0, 1, 1, 1);
    assert(t15 * s9 == (27) * mn(p, 0, 0, 6, 0, 3, 3, 3));
    assert(t15 * q == (27) * mn(p, 2, 0, 4, 1, 3, 2, 2) + (27) * mn(p, 1, 1, 4, 2, 2, 2, 2) + (-27) * mn(p, 1, 1, 4, 0, 2, 4, 2) + (-54) * mn(p, 1, 0, 5, 0, 3, 3, 2) + (9) * mn(p, 0, 2, 4, 0, 3, 3, 2) + (-54) * mn(p, 0, 1, 5, 1, 2, 3, 2) + (9) * mn(p, 0, 1, 5, 0, 4, 2, 2) + (27) * mn(p, 0, 1, 5, 0, 2, 4, 3) + (-27) * mn(p, 0, 0, 6, 1, 3, 2, 2) + (27) * mn(p, 0, 0, 6, 0, 3, 3, 3));
    assert(pp15 * q == (((((((6) * mn(p, 2, 3, 1, 1, 4, 1, 0) + (18) * mn(p, 2, 3, 1, 1, 2, 3, 1)) + ((108) * mn(p, 2, 2, 2, 3, 1, 2, 0) + ((-54) * mn(p, 2, 2, 2, 2, 3, 1, 0) + (-108) * mn(p, 2, 2, 2, 2, 1, 3, 1)))) + (((3) * mn(p, 2, 2, 2, 1, 5, 0, 0) + ((36) * mn(p, 2, 2, 2, 1, 3, 2, 1) + (27) * mn(p, 2, 2, 2, 1, 1, 4, 2))) + ((108) * mn(p, 2, 1, 3, 3, 2, 1, 0) + ((-18) * mn(p, 2, 1, 3, 2, 4, 0, 0) + (-162) * mn(p, 2, 1, 3, 2, 2, 2, 1))))) + ((((18) * mn(p, 2, 1, 3, 1, 4, 1, 1) + ((54) * mn(p, 2, 1, 3, 1, 2, 3, 2) + (27) * mn(p, 2, 0, 4, 3, 3, 0, 0))) + ((-54) * mn(p, 2, 0, 4, 2, 3, 1, 1) + ((27) * mn(p, 2, 0, 4, 1, 3, 2, 2) + (6) * mn(p, 1, 4, 1, 2, 3, 1, 0)))) + (((18) * mn(p, 1, 4, 1, 2, 1, 3, 1) + ((-6) * mn(p, 1, 4, 1, 0, 3, 3, 0) + (-18) * mn(p, 1, 4, 1, 0, 1, 5, 1))) + ((108) * mn(p, 1, 3, 2, 4, 0, 2, 0) + ((-54) * mn(p, 1, 3, 2, 3, 2, 1, 0) + (-108) * mn(p, 1, 3, 2, 3, 0, 3, 1)))))) + (((((3) * mn(p, 1, 3, 2, 2, 4, 0, 0) + (36) * mn(p, 1, 3, 2, 2, 2, 2, 1)) + ((27) * mn(p, 1, 3, 2, 2, 0, 4, 2) + ((-108) * mn(p, 1, 3, 2, 2, 0, 4, 0) + (54) * mn(p, 1, 3, 2, 1, 2, 3, 0)))) + (((108) * mn(p, 1, 3, 2, 1, 0, 5, 1) + ((-15) * mn(p, 1, 3, 2, 0, 4, 2, 0) + (-72) * mn(p, 1, 3, 2, 0, 2, 4, 1))) + ((-27) * mn(p, 1, 3, 2, 0, 0, 6, 2) + ((108) * mn(p, 1, 2, 3, 4, 1, 1, 0) + (-18) * mn(p, 1, 2, 3, 3, 3, 0, 0))))) + ((((-162) * mn(p, 1, 2, 3, 3, 1, 2, 1) + ((18) * mn(p, 1, 2, 3, 2, 3, 1, 1) + (54) * mn(p, 1, 2, 3, 2, 1, 3, 2))) + ((-324) * mn(p, 1, 2, 3, 2, 1, 3, 0) + ((126) * mn(p, 1, 2, 3, 1, 3, 2, 0) + (378) * mn(p, 1, 2, 3, 1, 1, 4, 1)))) + (((-6) * mn(p, 1, 2, 3, 0, 5, 1, 0) + ((-90) * mn(p, 1, 2, 3, 0, 3, 3, 1) + (-108) * mn(p, 1, 2, 3, 0, 1, 5, 2))) + ((27) * mn(p, 1, 1, 4, 4, 2, 0, 0) + ((-54) * mn(p, 1, 1, 4, 3, 2, 1, 1) + (27) * mn(p, 1, 1, 4, 2, 2, 2, 2))))))) + ((((((-243) * mn(p, 1, 1, 4, 2, 2, 2, 0) + (36) * mn(p, 1, 1, 4, 1, 4, 1, 0)) + ((378) * mn(p, 1, 1, 4, 1, 2, 3, 1) + ((-36) * mn(p, 1, 1, 4, 0, 4, 2, 1) + (-135) * mn(p, 1, 1, 4, 0, 2, 4, 2)))) + (((-54) * mn(p, 1, 0, 5, 2, 3, 1, 0) + ((108) * mn(p, 1, 0, 5, 1, 3, 2, 1) + (-54) * mn(p, 1, 0, 5, 0, 3, 3, 2))) + ((2) * mn(p, 0, 5, 1, 0, 4, 2, 0) + ((6) * mn(p, 0, 5, 1, 0, 2, 4, 1) + (36) * mn(p, 0, 4, 2, 2, 1, 3, 0))))) + ((((-30) * mn(p, 0, 4, 2, 1, 3, 2, 0) + ((-72) * mn(p, 0, 4, 2, 1, 1, 4, 1) + (3) * mn(p, 0, 4, 2, 0, 5, 1, 0))) + ((24) * mn(p, 0, 4, 2, 0, 3, 3, 1) + ((27) * mn(p, 0, 4, 2, 0, 1, 5, 2) + (-216) * mn(p, 0, 3, 3, 3, 0, 3, 0)))) + (((180) * mn(p, 0, 3, 3, 2, 2, 2, 0) + ((324) * mn(p, 0, 3, 3, 2, 0, 4, 1) + (-36) * mn(p, 0, 3, 3, 1, 4, 1, 0))) + ((-234) * mn(p, 0, 3, 3, 1, 2, 3, 1) + ((-162) * mn(p, 0, 3, 3, 1, 0, 5, 2) + (1) * mn(p, 0, 3, 3, 0, 6, 0, 0)))))) + (((((27) * mn(p, 0, 3, 3, 0, 4, 2, 1) + (81) * mn(p, 0, 3, 3, 0, 2, 4, 2)) + ((27) * mn(p, 0, 3, 3, 0, 0, 6, 3) + ((-324) * mn(p, 0, 2, 4, 3, 1, 2, 0) + (135) * mn(p, 0, 2, 4, 2, 3, 1, 0)))) + (((648) * mn(p, 0, 2, 4, 2, 1, 3, 1) + ((-9) * mn(p, 0, 2, 4, 1, 5, 0, 0) + (-216) * mn(p, 0, 2, 4, 1, 3, 2, 1))) + ((-405) * mn(p, 0, 2, 4, 1, 1, 4, 2) + ((9) * mn(p, 0, 2, 4, 0, 5, 1, 1) + (81) * mn(p, 0, 2, 4, 0, 3, 3, 2))))) + ((((81) * mn(p, 0, 2, 4, 0, 1, 5, 3) + ((-162) * mn(p, 0, 1, 5, 3, 2, 1, 0) + (27) * mn(p, 0, 1, 5, 2, 4, 0, 0))) + ((405) * mn(p, 0, 1, 5, 2, 2, 2, 1) + ((-54) * mn(p, 0, 1, 5, 1, 4, 1, 1) + (-324) * mn(p, 0, 1, 5, 1, 2, 3, 2)))) + (((27) * mn(p, 0, 1, 5, 0, 4, 2, 2) + ((81) * mn(p, 0, 1, 5, 0, 2, 4, 3) + (-27) * mn(p, 0, 0, 6, 3, 3, 0, 0))) + ((81) * mn(p, 0, 0, 6, 2, 3, 1, 1) + ((-81) * mn(p, 0, 0, 6, 1, 3, 2, 2) + (27) * mn(p, 0, 0, 6, 0, 3, 3, 3)))))))));
    assert(pp15 == (((((2) * mn(p, 0, 3, 1, 0, 3, 1, 0) + (6) * mn(p, 0, 3, 1, 0, 1, 3, 1)) + ((36) * mn(p, 0, 2, 2, 2, 0, 2, 0) + (-18) * mn(p, 0, 2, 2, 1, 2, 1, 0))) + (((-36) * mn(p, 0, 2, 2, 1, 0, 3, 1) + (1) * mn(p, 0, 2, 2, 0, 4, 0, 0)) + ((12) * mn(p, 0, 2, 2, 0, 2, 2, 1) + (9) * mn(p, 0, 2, 2, 0, 0, 4, 2)))) + ((((36) * mn(p, 0, 1, 3, 2, 1, 1, 0) + (-6) * mn(p, 0, 1, 3, 1, 3, 0, 0)) + ((-54) * mn(p, 0, 1, 3, 1, 1, 2, 1) + (6) * mn(p, 0, 1, 3, 0, 3, 1, 1))) + (((18) * mn(p, 0, 1, 3, 0, 1, 3, 2) + (9) * mn(p, 0, 0, 4, 2, 2, 0, 0)) + ((-18) * mn(p, 0, 0, 4, 1, 2, 1, 1) + (9) * mn(p, 0, 0, 4, 0, 2, 2, 2))))));
    assert(q == ((((3) * mn(p, 2, 0, 0, 1, 1, 0, 0) + (3) * mn(p, 1, 1, 0, 2, 0, 0, 0)) + ((-3) * mn(p, 1, 1, 0, 0, 0, 2, 0) + ((-6) * mn(p, 1, 0, 1, 0, 1, 1, 0) + (1) * mn(p, 0, 2, 0, 0, 1, 1, 0)))) + (((-6) * mn(p, 0, 1, 1, 1, 0, 1, 0) + (1) * mn(p, 0, 1, 1, 0, 2, 0, 0)) + ((3) * mn(p, 0, 1, 1, 0, 0, 2, 1) + ((-3) * mn(p, 0, 0, 2, 1, 1, 0, 0) + (3) * mn(p, 0, 0, 2, 0, 1, 1, 1))))));
}

#[verifier::rlimit(100)]
proof fn acb_prod21(p: Pt)
    ensures
        ((1) * mn(p, 0, 0, 0, 0, 0, 0, 1)) * (((((((((27) * mn(p, 6, 0, 0, 3, 3, 0, 0) + (81) * mn(p, 5, 1, 0, 4, 2, 0, 0)) + ((-81) * mn(p, 5, 1, 0, 2, 2, 2, 0) + (-162) * mn(p, 5, 0, 1, 2, 3, 1, 0))) + (((81) * mn(p, 4, 2, 0, 5, 1, 0, 0) + (-162) * mn(p, 4, 2, 0, 3, 1, 2, 0)) + ((27) * mn(p, 4, 2, 0, 2, 3, 1, 0) + ((81) * mn(p, 4, 2, 0, 1, 1, 4, 0) + (-486) * mn(p, 4, 1, 1, 3, 2, 1, 0))))) + ((((27) * mn(p, 4, 1, 1, 2, 4, 0, 0) + (81) * mn(p, 4, 1, 1, 2, 2, 2, 1)) + ((324) * mn(p, 4, 1, 1, 1, 2, 3, 0) + ((-81) * mn(p, 4, 0, 2, 3, 3, 0, 0) + (81) * mn(p, 4, 0, 2, 2, 3, 1, 1)))) + (((324) * mn(p, 4, 0, 2, 1, 3, 2, 0) + (27) * mn(p, 3, 3, 0, 6, 0, 0, 0)) + ((-81) * mn(p, 3, 3, 0, 4, 0, 2, 0) + ((54) * mn(p, 3, 3, 0, 3, 2, 1, 0) + (81) * mn(p, 3, 3, 0, 2, 0, 4, 0)))))) + (((((-54) * mn(p, 3, 3, 0, 1, 2, 3, 0) + (-27) * mn(p, 3, 3, 0, 0, 0, 6, 0)) + ((-486) * mn(p, 3, 2, 1, 4, 1, 1, 0) + ((54) * mn(p, 3, 2, 1, 3, 3, 0, 0) + (162) * mn(p, 3, 2, 1, 3, 1, 2, 1)))) + (((648) * mn(p, 3, 2, 1, 2, 1, 3, 0) + (-162) * mn(p, 3, 2, 1, 1, 3, 2, 0)) + ((-162) * mn(p, 3, 2, 1, 1, 1, 4, 1) + ((-162) * mn(p, 3, 2, 1, 0, 1, 5, 0) + (-162) * mn(p, 3, 1, 2, 4, 2, 0, 0))))) + ((((162) * mn(p, 3, 1, 2, 3, 2, 1, 1) + (1134) * mn(p, 3, 1, 2, 2, 2, 2, 0)) + ((-108) * mn(p, 3, 1, 2, 1, 4, 1, 0) + ((-486) * mn(p, 3, 1, 2, 1, 2, 3, 1) + (-324) * mn(p, 3, 1, 2, 0, 2, 4, 0)))) + (((324) * mn(p, 3, 0, 3, 2, 3, 1, 0) + (-324) * mn(p, 3, 0, 3, 1, 3, 2, 1)) + ((-216) * mn(p, 3, 0, 3, 0, 3, 3, 0) + ((27) * mn(p, 2, 4, 0, 4, 1, 1, 0) + (-54) * mn(p, 2, 4, 0, 2, 1, 3, 0))))))) + ((((((9) * mn(p, 2, 4, 0, 1, 3, 2, 0) + (27) * mn(p, 2, 4, 0, 0, 1, 5, 0)) + ((-162) * mn(p, 2, 3, 1, 5, 0, 1, 0) + ((27) * mn(p, 2, 3, 1, 4, 2, 0, 0) + (81) * mn(p, 2, 3, 1, 4, 0, 2, 1)))) + (((324) * mn(p, 2, 3, 1, 3, 0, 3, 0) + (-270) * mn(p, 2, 3, 1, 2, 2, 2, 0)) + ((-162) * mn(p, 2, 3, 1, 2, 0, 4, 1) + ((18) * mn(p, 2, 3, 1, 1, 4, 1, 0) + (54) * mn(p, 2, 3, 1, 1, 2, 3, 1))))) + ((((-162) * mn(p, 2, 3, 1, 1, 0, 5, 0) + (135) * mn(p, 2, 3, 1, 0, 2, 4, 0)) + ((81) * mn(p, 2, 3, 1, 0, 0, 6, 1) + ((-81) * mn(p, 2, 2, 2, 5, 1, 0, 0) + (81) * mn(p, 2, 2, 2, 4, 1, 1, 1)))) + (((1134) * mn(p, 2, 2, 2, 3, 1, 2, 0) + (-270) * mn(p, 2, 2, 2, 2, 3, 1, 0)) + ((-810) * mn(p, 2, 2, 2, 2, 1, 3, 1) + ((9) * mn(p, 2, 2, 2, 1, 5, 0, 0) + (108) * mn(p, 2, 2, 2, 1, 3, 2, 1)))))) + (((((81) * mn(p, 2, 2, 2, 1, 1, 4, 2) + (-729) * mn(p, 2, 2, 2, 1, 1, 4, 0)) + ((216) * mn(p, 2, 2, 2, 0, 3, 3, 0) + ((405) * mn(p, 2, 2, 2, 0, 1, 5, 1) + (648) * mn(p, 2, 1, 3, 3, 2, 1, 0)))) + (((-54) * mn(p, 2, 1, 3, 2, 4, 0, 0) + (-810) * mn(p, 2, 1, 3, 2, 2, 2, 1)) + ((54) * mn(p, 2, 1, 3, 1, 4, 1, 1) + ((162) * mn(p, 2, 1, 3, 1, 2, 3, 2) + (-972) * mn(p, 2, 1, 3, 1, 2, 3, 0))))) + ((((108) * mn(p, 2, 1, 3, 0, 4, 2, 0) + (648) * mn(p, 2, 1, 3, 0, 2, 4, 1)) + ((81) * mn(p, 2, 0, 4, 3, 3, 0, 0) + ((-162) * mn(p, 2, 0, 4, 2, 3, 1, 1) + (81) * mn(p, 2, 0, 4, 1, 3, 2, 2)))) + (((-324) * mn(p, 2, 0, 4, 1, 3, 2, 0) + (324) * mn(p, 2, 0, 4, 0, 3, 3, 1)) + ((9) * mn(p, 1, 5, 0, 2, 2, 2, 0) + ((-9) * mn(p, 1, 5, 0, 0, 2, 4, 0) + (-108) * mn(p, 1, 4, 1, 3, 1, 2, 0)))))))) + (((((((18) * mn(p, 1, 4, 1, 2, 3, 1, 0) + (54) * mn(p, 1, 4, 1, 2, 1, 3, 1)) + ((108) * mn(p, 1, 4, 1, 1, 1, 4, 0) + (-36) * mn(p, 1, 4, 1, 0, 3, 3, 0))) + (((-54) * mn(p, 1, 4, 1, 0, 1, 5, 1) + (324) * mn(p, 1, 3, 2, 4, 0, 2, 0)) + ((-162) * mn(p, 1, 3, 2, 3, 2, 1, 0) + ((-324) * mn(p, 1, 3, 2, 3, 0, 3, 1) + (9) * mn(p, 1, 3, 2, 2, 4, 0, 0))))) + ((((108) * mn(p, 1, 3, 2, 2, 2, 2, 1) + (81) * mn(p, 1, 3, 2, 2, 0, 4, 2)) + ((-324) * mn(p, 1, 3, 2, 2, 0, 4, 0) + ((378) * mn(p, 1, 3, 2, 1, 2, 3, 0) + (324) * mn(p, 1, 3, 2, 1, 0, 5, 1)))) + (((-45) * mn(p, 1, 3, 2, 0, 4, 2, 0) + (-216) * mn(p, 1, 3, 2, 0, 2, 4, 1)) + ((-81) * mn(p, 1, 3, 2, 0, 0, 6, 2) + ((324) * mn(p, 1, 2, 3, 4, 1, 1, 0) + (-54) * mn(p, 1, 2, 3, 3, 3, 0, 0)))))) + (((((-486) * mn(p, 1, 2, 3, 3, 1, 2, 1) + (54) * mn(p, 1, 2, 3, 2, 3, 1, 1)) + ((162) * mn(p, 1, 2, 3, 2, 1, 3, 2) + ((-972) * mn(p, 1, 2, 3, 2, 1, 3, 0) + (378) * mn(p, 1, 2, 3, 1, 3, 2, 0)))) + (((1134) * mn(p, 1, 2, 3, 1, 1, 4, 1) + (-18) * mn(p, 1, 2, 3, 0, 5, 1, 0)) + ((-270) * mn(p, 1, 2, 3, 0, 3, 3, 1) + ((-324) * mn(p, 1, 2, 3, 0, 1, 5, 2) + (81) * mn(p, 1, 1, 4, 4, 2, 0, 0))))) + ((((-162) * mn(p, 1, 1, 4, 3, 2, 1, 1) + (81) * mn(p, 1, 1, 4, 2, 2, 2, 2)) + ((-729) * mn(p, 1, 1, 4, 2, 2, 2, 0) + ((108) * mn(p, 1, 1, 4, 1, 4, 1, 0) + (1134) * mn(p, 1, 1, 4, 1, 2, 3, 1)))) + (((-108) * mn(p, 1, 1, 4, 0, 4, 2, 1) + (-405) * mn(p, 1, 1, 4, 0, 2, 4, 2)) + ((-162) * mn(p, 1, 0, 5, 2, 3, 1, 0) + ((324) * mn(p, 1, 0, 5, 1, 3, 2, 1) + (-162) * mn(p, 1, 0, 5, 0, 3, 3, 2))))))) + ((((((1) * mn(p, 0, 6, 0, 0, 3, 3, 0) + (-18) * mn(p, 0, 5, 1, 1, 2, 3, 0)) + ((3) * mn(p, 0, 5, 1, 0, 4, 2, 0) + ((9) * mn(p, 0, 5, 1, 0, 2, 4, 1) + (108) * mn(p, 0, 4, 2, 2, 1, 3, 0)))) + (((-45) * mn(p, 0, 4, 2, 1, 3, 2, 0) + (-108) * mn(p, 0, 4, 2, 1, 1, 4, 1)) + ((3) * mn(p, 0, 4, 2, 0, 5, 1, 0) + ((27) * mn(p, 0, 4, 2, 0, 3, 3, 1) + (27) * mn(p, 0, 4, 2, 0, 1, 5, 2))))) + ((((-216) * mn(p, 0, 3, 3, 3, 0, 3, 0) + (216) * mn(p, 0, 3, 3, 2, 2, 2, 0)) + ((324) * mn(p, 0, 3, 3, 2, 0, 4, 1) + ((-36) * mn(p, 0, 3, 3, 1, 4, 1, 0) + (-270) * mn(p, 0, 3, 3, 1, 2, 3, 1)))) + (((-162) * mn(p, 0, 3, 3, 1, 0, 5, 2) + (1) * mn(p, 0, 3, 3, 0, 6, 0, 0)) + ((27) * mn(p, 0, 3, 3, 0, 4, 2, 1) + ((81) * mn(p, 0, 3, 3, 0, 2, 4, 2) + (27) * mn(p, 0, 3, 3, 0, 0, 6, 3)))))) + (((((-324) * mn(p, 0, 2, 4, 3, 1, 2, 0) + (135) * mn(p, 0, 2, 4, 2, 3, 1, 0)) + ((648) * mn(p, 0, 2, 4, 2, 1, 3, 1) + ((-9) * mn(p, 0, 2, 4, 1, 5, 0, 0) + (-216) * mn(p, 0, 2, 4, 1, 3, 2, 1)))) + (((-405) * mn(p, 0, 2, 4, 1, 1, 4, 2) + (9) * mn(p, 0, 2, 4, 0, 5, 1, 1)) + ((81) * mn(p, 0, 2, 4, 0, 3, 3, 2) + ((81) * mn(p, 0, 2, 4, 0, 1, 5, 3) + (-162) * mn(p, 0, 1, 5, 3, 2, 1, 0))))) + ((((27) * mn(p, 0, 1, 5, 2, 4, 0, 0) + (405) * mn(p, 0, 1, 5, 2, 2, 2, 1)) + ((-54) * mn(p, 0, 1, 5, 1, 4, 1, 1) + ((-324) * mn(p, 0, 1, 5, 1, 2, 3, 2) + (27) * mn(p, 0, 1, 5, 0, 4, 2, 2)))) + (((81) * mn(p, 0, 1, 5, 0, 2, 4, 3) + (-27) * mn(p, 0, 0, 6, 3, 3, 0, 0)) + ((81) * mn(p, 0, 0, 6, 2, 3, 1, 1) + ((-81) * mn(p, 0, 0, 6, 1, 3, 2, 2) + (27) * mn(p, 0, 0, 6, 0, 3, 3, 3)))))))))) == ((((((((27) * mn(p, 6, 0, 0, 3, 3, 0, 1) + (81) * mn(p, 5, 1, 0, 4, 2, 0, 1)) + ((-81) * mn(p, 5, 1, 0, 2, 2, 2, 1) + (-162) * mn(p, 5, 0, 1, 2, 3, 1, 1))) + (((81) * mn(p, 4, 2, 0, 5, 1, 0, 1) + (-162) * mn(p, 4, 2, 0, 3, 1, 2, 1)) + ((27) * mn(p, 4, 2, 0, 2, 3, 1, 1) + ((81) * mn(p, 4, 2, 0, 1, 1, 4, 1) + (-486) * mn(p, 4, 1, 1, 3, 2, 1, 1))))) + ((((27) * mn(p, 4, 1, 1, 2, 4, 0, 1) + (81) * mn(p, 4, 1, 1, 2, 2, 2, 2)) + ((324) * mn(p, 4, 1, 1, 1, 2, 3, 1) + ((-81) * mn(p, 4, 0, 2, 3, 3, 0, 1) + (81) * mn(p, 4, 0, 2, 2, 3, 1, 2)))) + (((324) * mn(p, 4, 0, 2, 1, 3, 2, 1) + (27) * mn(p, 3, 3, 0, 6, 0, 0, 1)) + ((-81) * mn(p, 3, 3, 0, 4, 0, 2, 1) + ((54) * mn(p, 3, 3, 0, 3, 2, 1, 1) + (81) * mn(p, 3, 3, 0, 2, 0, 4, 1)))))) + (((((-54) * mn(p, 3, 3, 0, 1, 2, 3, 1) + (-27) * mn(p, 3, 3, 0, 0, 0, 6, 1)) + ((-486) * mn(p, 3, 2, 1, 4, 1, 1, 1) + ((54) * mn(p, 3, 2, 1, 3, 3, 0, 1) + (162) * mn(p, 3, 2, 1, 3, 1, 2, 2)))) + (((648) * mn(p, 3, 2, 1, 2, 1, 3, 1) + (-162) * mn(p, 3, 2, 1, 1, 3, 2, 1)) + ((-162) * mn(p, 3, 2, 1, 1, 1, 4, 2) + ((-162) * mn(p, 3, 2, 1, 0, 1, 5, 1) + (-162) * mn(p, 3, 1, 2, 4, 2, 0, 1))))) + ((((162) * mn(p, 3, 1, 2, 3, 2, 1, 2) + (1134) * mn(p, 3, 1, 2, 2, 2, 2, 1)) + ((-108) * mn(p, 3, 1, 2, 1, 4, 1, 1) + ((-486) * mn(p, 3, 1, 2, 1, 2, 3, 2) + (-324) * mn(p, 3, 1, 2, 0, 2, 4, 1)))) + (((324) * mn(p, 3, 0, 3, 2, 3, 1, 1) + (-324) * mn(p, 3, 0, 3, 1, 3, 2, 2)) + ((-216) * mn(p, 3, 0, 3, 0, 3, 3, 1) + ((27) * mn(p, 2, 4, 0, 4, 1, 1, 1) + (-54) * mn(p, 2, 4, 0, 2, 1, 3, 1))))))) + ((((((9) * mn(p, 2, 4, 0, 1, 3, 2, 1) + (27) * mn(p, 2, 4, 0, 0, 1, 5, 1)) + ((-162) * mn(p, 2, 3, 1, 5, 0, 1, 1) + ((27) * mn(p, 2, 3, 1, 4, 2, 0, 1) + (81) * mn(p, 2, 3, 1, 4, 0, 2, 2)))) + (((324) * mn(p, 2, 3, 1, 3, 0, 3, 1) + (-270) * mn(p, 2, 3, 1, 2, 2, 2, 1)) + ((-162) * mn(p, 2, 3, 1, 2, 0, 4, 2) + ((18) * mn(p, 2, 3, 1, 1, 4, 1, 1) + (54) * mn(p, 2, 3, 1, 1, 2, 3, 2))))) + ((((-162) * mn(p, 2, 3, 1, 1, 0, 5, 1) + (135) * mn(p, 2, 3, 1, 0, 2, 4, 1)) + ((81) * mn(p, 2, 3, 1, 0, 0, 6, 2) + ((-81) * mn(p, 2, 2, 2, 5, 1, 0, 1) + (81) * mn(p, 2, 2, 2, 4, 1, 1, 2)))) + (((1134) * mn(p, 2, 2, 2, 3, 1, 2, 1) + (-270) * mn(p, 2, 2, 2, 2, 3, 1, 1)) + ((-810) * mn(p, 2, 2, 2, 2, 1, 3, 2) + ((9) * mn(p, 2, 2, 2, 1, 5, 0, 1) + (108) * mn(p, 2, 2, 2, 1, 3, 2, 2)))))) + (((((81) * mn(p, 2, 2, 2, 1, 1, 4, 3) + (-729) * mn(p, 2, 2, 2, 1, 1, 4, 1)) + ((216) * mn(p, 2, 2, 2, 0, 3, 3, 1) + ((405) * mn(p, 2, 2, 2, 0, 1, 5, 2) + (648) * mn(p, 2, 1, 3, 3, 2, 1, 1)))) + (((-54) * mn(p, 2, 1, 3, 2, 4, 0, 1) + (-810) * mn(p, 2, 1, 3, 2, 2, 2, 2)) + ((54) * mn(p, 2, 1, 3, 1, 4, 1, 2) + ((162) * mn(p, 2, 1, 3, 1, 2, 3, 3) + (-972) * mn(p, 2, 1, 3, 1, 2, 3, 1))))) + ((((108) * mn(p, 2, 1, 3, 0, 4, 2, 1) + (648) * mn(p, 2, 1, 3, 0, 2, 4, 2)) + ((81) * mn(p, 2, 0, 4, 3, 3, 0, 1) + ((-162) * mn(p, 2, 0, 4, 2, 3, 1, 2) + (81) * mn(p, 2, 0, 4, 1, 3, 2, 3)))) + (((-324) * mn(p, 2, 0, 4, 1, 3, 2, 1) + (324) * mn(p, 2, 0, 4, 0, 3, 3, 2)) + ((9) * mn(p, 1, 5, 0, 2, 2, 2, 1) + ((-9) * mn(p, 1, 5, 0, 0, 2, 4, 1) + (-108) * mn(p, 1, 4, 1, 3, 1, 2, 1)))))))) + (((((((18) * mn(p, 1, 4, 1, 2, 3, 1, 1) + (54) * mn(p, 1, 4, 1, 2, 1, 3, 2)) + ((108) * mn(p, 1, 4, 1, 1, 1, 4, 1) + (-36) * mn(p, 1, 4, 1, 0, 3, 3, 1))) + (((-54) * mn(p, 1, 4, 1, 0, 1, 5, 2) + (324) * mn(p, 1, 3, 2, 4, 0, 2, 1)) + ((-162) * mn(p, 1, 3, 2, 3, 2, 1, 1) + ((-324) * mn(p, 1, 3, 2, 3, 0, 3, 2) + (9) * mn(p, 1, 3, 2, 2, 4, 0, 1))))) + ((((108) * mn(p, 1, 3, 2, 2, 2, 2, 2) + (81) * mn(p, 1, 3, 2, 2, 0, 4, 3)) + ((-324) * mn(p, 1, 3, 2, 2, 0, 4, 1) + ((378) * mn(p, 1, 3, 2, 1, 2, 3, 1) + (324) * mn(p, 1, 3, 2, 1, 0, 5, 2)))) + (((-45) * mn(p, 1, 3, 2, 0, 4, 2, 1) + (-216) * mn(p, 1, 3, 2, 0, 2, 4, 2)) + ((-81) * mn(p, 1, 3, 2, 0, 0, 6, 3) + ((324) * mn(p, 1, 2, 3, 4, 1, 1, 1) + (-54) * mn(p, 1, 2, 3, 3, 3, 0, 1)))))) + (((((-486) * mn(p, 1, 2, 3, 3, 1, 2, 2) + (54) * mn(p, 1, 2, 3, 2, 3, 1, 2)) + ((162) * mn(p, 1, 2, 3, 2, 1, 3, 3) + ((-972) * mn(p, 1, 2, 3, 2, 1, 3, 1) + (378) * mn(p, 1, 2, 3, 1, 3, 2, 1)))) + (((1134) * mn(p, 1, 2, 3, 1, 1, 4, 2) + (-18) * mn(p, 1, 2, 3, 0, 5, 1, 1)) + ((-270) * mn(p, 1, 2, 3, 0, 3, 3, 2) + ((-324) * mn(p, 1, 2, 3, 0, 1, 5, 3) + (81) * mn(p, 1, 1, 4, 4, 2, 0, 1))))) + ((((-162) * mn(p, 1, 1, 4, 3, 2, 1, 2) + (81) * mn(p, 1, 1, 4, 2, 2, 2, 3)) + ((-729) * mn(p, 1, 1, 4, 2, 2, 2, 1) + ((108) * mn(p, 1, 1, 4, 1, 4, 1, 1) + (1134) * mn(p, 1, 1, 4, 1, 2, 3, 2)))) + (((-108) * mn(p, 1, 1, 4, 0, 4, 2, 2) + (-405) * mn(p, 1, 1, 4, 0, 2, 4, 3)) + ((-162) * mn(p, 1, 0, 5, 2, 3, 1, 1) + ((324) * mn(p, 1, 0, 5, 1, 3, 2, 2) + (-162) * mn(p, 1, 0, 5, 0, 3, 3, 3))))))) + ((((((1) * mn(p, 0, 6, 0, 0, 3, 3, 1) + (-18) * mn(p, 0, 5, 1, 1, 2, 3, 1)) + ((3) * mn(p, 0, 5, 1, 0, 4, 2, 1) + ((9) * mn(p, 0, 5, 1, 0, 2, 4, 2) + (108) * mn(p, 0, 4, 2, 2, 1, 3, 1)))) + (((-45) * mn(p, 0, 4, 2, 1, 3, 2, 1) + (-108) * mn(p, 0, 4, 2, 1, 1, 4, 2)) + ((3) * mn(p, 0, 4, 2, 0, 5, 1, 1) + ((27) * mn(p, 0, 4, 2, 0, 3, 3, 2) + (27) * mn(p, 0, 4, 2, 0, 1, 5, 3))))) + ((((-216) * mn(p, 0, 3, 3, 3, 0, 3, 1) + (216) * mn(p, 0, 3, 3, 2, 2, 2, 1)) + ((324) * mn(p, 0, 3, 3, 2, 0, 4, 2) + ((-36) * mn(p, 0, 3, 3, 1, 4, 1, 1) + (-270) * mn(p, 0, 3, 3, 1, 2, 3, 2)))) + (((-162) * mn(p, 0, 3, 3, 1, 0, 5, 3) + (1) * mn(p, 0, 3, 3, 0, 6, 0, 1)) + ((27) * mn(p, 0, 3, 3, 0, 4, 2, 2) + ((81) * mn(p, 0, 3, 3, 0, 2, 4, 3) + (27) * mn(p, 0, 3, 3, 0, 0, 6, 4)))))) + (((((-324) * mn(p, 0, 2, 4, 3, 1, 2, 1) + (135) * mn(p, 0, 2, 4, 2, 3, 1, 1)) + ((648) * mn(p, 0, 2, 4, 2, 1, 3, 2) + ((-9) * mn(p, 0, 2, 4, 1, 5, 0, 1) + (-216) * mn(p, 0, 2, 4, 1, 3, 2, 2)))) + (((-405) * mn(p, 0, 2, 4, 1, 1, 4, 3) + (9) * mn(p, 0, 2, 4, 0, 5, 1, 2)) + ((81) * mn(p, 0, 2, 4, 0, 3, 3, 3) + ((81) * mn(p, 0, 2, 4, 0, 1, 5, 4) + (-162) * mn(p, 0, 1, 5, 3, 2, 1, 1))))) + ((((27) * mn(p, 0, 1, 5, 2, 4, 0, 1) + (405) * mn(p, 0, 1, 5, 2, 2, 2, 2)) + ((-54) * mn(p, 0, 1, 5, 1, 4, 1, 2) + ((-324) * mn(p, 0, 1, 5, 1, 2, 3, 3) + (27) * mn(p, 0, 1, 5, 0, 4, 2, 3)))) + (((81) * mn(p, 0, 1, 5, 0, 2, 4, 4) + (-27) * mn(p, 0, 0, 6, 3, 3, 0, 1)) + ((81) * mn(p, 0, 0, 6, 2, 3, 1, 2) + ((-81) * mn(p, 0, 0, 6, 1, 3, 2, 3) + (27) * mn(p, 0, 0, 6, 0, 3, 3, 4))))))))),
{
    let c0 = ((((((27) * mn(p, 6, 0, 0, 3, 3, 0, 0) + (81) * mn(p, 5, 1, 0, 4, 2, 0, 0)) + ((-81) * mn(p, 5, 1, 0, 2, 2, 2, 0) + (-162) * mn(p, 5, 0, 1, 2, 3, 1, 0))) + (((81) * mn(p, 4, 2, 0, 5, 1, 0, 0) + (-162) * mn(p, 4, 2, 0, 3, 1, 2, 0)) + ((27) * mn(p, 4, 2, 0, 2, 3, 1, 0) + (81) * mn(p, 4, 2, 0, 1, 1, 4, 0)))) + ((((-486) * mn(p, 4, 1, 1, 3, 2, 1, 0) + (27) * mn(p, 4, 1, 1, 2, 4, 0, 0)) + ((81) * mn(p, 4, 1, 1, 2, 2, 2, 1) + (324) * mn(p, 4, 1, 1, 1, 2, 3, 0))) + (((-81) * mn(p, 4, 0, 2, 3, 3, 0, 0) + (81) * mn(p, 4, 0, 2, 2, 3, 1, 1)) + ((324) * mn(p, 4, 0, 2, 1, 3, 2, 0) + (27) * mn(p, 3, 3, 0, 6, 0, 0, 0))))) + (((((-81) * mn(p, 3, 3, 0, 4, 0, 2, 0) + (54) * mn(p, 3, 3, 0, 3, 2, 1, 0)) + ((81) * mn(p, 3, 3, 0, 2, 0, 4, 0) + (-54) * mn(p, 3, 3, 0, 1, 2, 3, 0))) + (((-27) * mn(p, 3, 3, 0, 0, 0, 6, 0) + (-486) * mn(p, 3, 2, 1, 4, 1, 1, 0)) + ((54) * mn(p, 3, 2, 1, 3, 3, 0, 0) + (162) * mn(p, 3, 2, 1, 3, 1, 2, 1)))) + ((((648) * mn(p, 3, 2, 1, 2, 1, 3, 0) + (-162) * mn(p, 3, 2, 1, 1, 3, 2, 0)) + ((-162) * mn(p, 3, 2, 1, 1, 1, 4, 1) + (-162) * mn(p, 3, 2, 1, 0, 1, 5, 0))) + (((-162) * mn(p, 3, 1, 2, 4, 2, 0, 0) + (162) * mn(p, 3, 1, 2, 3, 2, 1, 1)) + ((1134) * mn(p, 3, 1, 2, 2, 2, 2, 0) + (-108) * mn(p, 3, 1, 2, 1, 4, 1, 0))))));
    let c1 = ((((((-486) * mn(p, 3, 1, 2, 1, 2, 3, 1) + (-324) * mn(p, 3, 1, 2, 0, 2, 4, 0)) + ((324) * mn(p, 3, 0, 3, 2, 3, 1, 0) + (-324) * mn(p, 3, 0, 3, 1, 3, 2, 1))) + (((-216) * mn(p, 3, 0, 3, 0, 3, 3, 0) + (27) * mn(p, 2, 4, 0, 4, 1, 1, 0)) + ((-54) * mn(p, 2, 4, 0, 2, 1, 3, 0) + (9) * mn(p, 2, 4, 0, 1, 3, 2, 0)))) + ((((27) * mn(p, 2, 4, 0, 0, 1, 5, 0) + (-162) * mn(p, 2, 3, 1, 5, 0, 1, 0)) + ((27) * mn(p, 2, 3, 1, 4, 2, 0, 0) + (81) * mn(p, 2, 3, 1, 4, 0, 2, 1))) + (((324) * mn(p, 2, 3, 1, 3, 0, 3, 0) + (-270) * mn(p, 2, 3, 1, 2, 2, 2, 0)) + ((-162) * mn(p, 2, 3, 1, 2, 0, 4, 1) + (18) * mn(p, 2, 3, 1, 1, 4, 1, 0))))) + (((((54) * mn(p, 2, 3, 1, 1, 2, 3, 1) + (-162) * mn(p, 2, 3, 1, 1, 0, 5, 0)) + ((135) * mn(p, 2, 3, 1, 0, 2, 4, 0) + (81) * mn(p, 2, 3, 1, 0, 0, 6, 1))) + (((-81) * mn(p, 2, 2, 2, 5, 1, 0, 0) + (81) * mn(p, 2, 2, 2, 4, 1, 1, 1)) + ((1134) * mn(p, 2, 2, 2, 3, 1, 2, 0) + (-270) * mn(p, 2, 2, 2, 2, 3, 1, 0)))) + ((((-810) * mn(p, 2, 2, 2, 2, 1, 3, 1) + (9) * mn(p, 2, 2, 2, 1, 5, 0, 0)) + ((108) * mn(p, 2, 2, 2, 1, 3, 2, 1) + (81) * mn(p, 2, 2, 2, 1, 1, 4, 2))) + (((-729) * mn(p, 2, 2, 2, 1, 1, 4, 0) + (216) * mn(p, 2, 2, 2, 0, 3, 3, 0)) + ((405) * mn(p, 2, 2, 2, 0, 1, 5, 1) + (648) * mn(p, 2, 1, 3, 3, 2, 1, 0))))));
    let c2 = ((((((-54) * mn(p, 2, 1, 3, 2, 4, 0, 0) + (-810) * mn(p, 2, 1, 3, 2, 2, 2, 1)) + ((54) * mn(p, 2, 1, 3, 1, 4, 1, 1) + (162) * mn(p, 2, 1, 3, 1, 2, 3, 2))) + (((-972) * mn(p, 2, 1, 3, 1, 2, 3, 0) + (108) * mn(p, 2, 1, 3, 0, 4, 2, 0)) + ((648) * mn(p, 2, 1, 3, 0, 2, 4, 1) + (81) * mn(p, 2, 0, 4, 3, 3, 0, 0)))) + ((((-162) * mn(p, 2, 0, 4, 2, 3, 1, 1) + (81) * mn(p, 2, 0, 4, 1, 3, 2, 2)) + ((-324) * mn(p, 2, 0, 4, 1, 3, 2, 0) + (324) * mn(p, 2, 0, 4, 0, 3, 3, 1))) + (((9) * mn(p, 1, 5, 0, 2, 2, 2, 0) + (-9) * mn(p, 1, 5, 0, 0, 2, 4, 0)) + ((-108) * mn(p, 1, 4, 1, 3, 1, 2, 0) + (18) * mn(p, 1, 4, 1, 2, 3, 1, 0))))) + (((((54) * mn(p, 1, 4, 1, 2, 1, 3, 1) + (108) * mn(p, 1, 4, 1, 1, 1, 4, 0)) + ((-36) * mn(p, 1, 4, 1, 0, 3, 3, 0) + (-54) * mn(p, 1, 4, 1, 0, 1, 5, 1))) + (((324) * mn(p, 1, 3, 2, 4, 0, 2, 0) + (-162) * mn(p, 1, 3, 2, 3, 2, 1, 0)) + ((-324) * mn(p, 1, 3, 2, 3, 0, 3, 1) + (9) * mn(p, 1, 3, 2, 2, 4, 0, 0)))) + ((((108) * mn(p, 1, 3, 2, 2, 2, 2, 1) + (81) * mn(p, 1, 3, 2, 2, 0, 4, 2)) + ((-324) * mn(p, 1, 3, 2, 2, 0, 4, 0) + (378) * mn(p, 1, 3, 2, 1, 2, 3, 0))) + (((324) * mn(p, 1, 3, 2, 1, 0, 5, 1) + (-45) * mn(p, 1, 3, 2, 0, 4, 2, 0)) + ((-216) * mn(p, 1, 3, 2, 0, 2, 4, 1) + (-81) * mn(p, 1, 3, 2, 0, 0, 6, 2))))));
    let c3 = ((((((324) * mn(p, 1, 2, 3, 4, 1, 1, 0) + (-54) * mn(p, 1, 2, 3, 3, 3, 0, 0)) + ((-486) * mn(p, 1, 2, 3, 3, 1, 2, 1) + (54) * mn(p, 1, 2, 3, 2, 3, 1, 1))) + (((162) * mn(p, 1, 2, 3, 2, 1, 3, 2) + (-972) * mn(p, 1, 2, 3, 2, 1, 3, 0)) + ((378) * mn(p, 1, 2, 3, 1, 3, 2, 0) + (1134) * mn(p, 1, 2, 3, 1, 1, 4, 1)))) + ((((-18) * mn(p, 1, 2, 3, 0, 5, 1, 0) + (-270) * mn(p, 1, 2, 3, 0, 3, 3, 1)) + ((-324) * mn(p, 1, 2, 3, 0, 1, 5, 2) + (81) * mn(p, 1, 1, 4, 4, 2, 0, 0))) + (((-162) * mn(p, 1, 1, 4, 3, 2, 1, 1) + (81) * mn(p, 1, 1, 4, 2, 2, 2, 2)) + ((-729) * mn(p, 1, 1, 4, 2, 2, 2, 0) + (108) * mn(p, 1, 1, 4, 1, 4, 1, 0))))) + (((((1134) * mn(p, 1, 1, 4, 1, 2, 3, 1) + (-108) * mn(p, 1, 1, 4, 0, 4, 2, 1)) + ((-405) * mn(p, 1, 1, 4, 0, 2, 4, 2) + (-162) * mn(p, 1, 0, 5, 2, 3, 1, 0))) + (((324) * mn(p, 1, 0, 5, 1, 3, 2, 1) + (-162) * mn(p, 1, 0, 5, 0, 3, 3, 2)) + ((1) * mn(p, 0, 6, 0, 0, 3, 3, 0) + (-18) * mn(p, 0, 5, 1, 1, 2, 3, 0)))) + ((((3) * mn(p, 0, 5, 1, 0, 4, 2, 0) + (9) * mn(p, 0, 5, 1, 0, 2, 4, 1)) + ((108) * mn(p, 0, 4, 2, 2, 1, 3, 0) + (-45) * mn(p, 0, 4, 2, 1, 3, 2, 0))) + (((-108) * mn(p, 0, 4, 2, 1, 1, 4, 1) + (3) * mn(p, 0, 4, 2, 0, 5, 1, 0)) + ((27) * mn(p, 0, 4, 2, 0, 3, 3, 1) + (27) * mn(p, 0, 4, 2, 0, 1, 5, 2))))));
    let c4 = (((((-216) * mn(p, 0, 3, 3, 3, 0, 3, 0) + ((216) * mn(p, 0, 3, 3, 2, 2, 2, 0) + (324) * mn(p, 0, 3, 3, 2, 0, 4, 1))) + (((-36) * mn(p, 0, 3, 3, 1, 4, 1, 0) + (-270) * mn(p, 0, 3, 3, 1, 2, 3, 1)) + ((-162) * mn(p, 0, 3, 3, 1, 0, 5, 2) + (1) * mn(p, 0, 3, 3, 0, 6, 0, 0)))) + ((((27) * mn(p, 0, 3, 3, 0, 4, 2, 1) + (81) * mn(p, 0, 3, 3, 0, 2, 4, 2)) + ((27) * mn(p, 0, 3, 3, 0, 0, 6, 3) + (-324) * mn(p, 0, 2, 4, 3, 1, 2, 0))) + (((135) * mn(p, 0, 2, 4, 2, 3, 1, 0) + (648) * mn(p, 0, 2, 4, 2, 1, 3, 1)) + ((-9) * mn(p, 0, 2, 4, 1, 5, 0, 0) + (-216) * mn(p, 0, 2, 4, 1, 3, 2, 1))))) + ((((-405) * mn(p, 0, 2, 4, 1, 1, 4, 2) + ((9) * mn(p, 0, 2, 4, 0, 5, 1, 1) + (81) * mn(p, 0, 2, 4, 0, 3, 3, 2))) + (((81) * mn(p, 0, 2, 4, 0, 1, 5, 3) + (-162) * mn(p, 0, 1, 5, 3, 2, 1, 0)) + ((27) * mn(p, 0, 1, 5, 2, 4, 0, 0) + (405) * mn(p, 0, 1, 5, 2, 2, 2, 1)))) + ((((-54) * mn(p, 0, 1, 5, 1, 4, 1, 1) + (-324) * mn(p, 0, 1, 5, 1, 2, 3, 2)) + ((27) * mn(p, 0, 1, 5, 0, 4, 2, 2) + (81) * mn(p, 0, 1, 5, 0, 2, 4, 3))) + (((-27) * mn(p, 0, 0, 6, 3, 3, 0, 0) + (81) * mn(p, 0, 0, 6, 2, 3, 1, 1)) + ((-81) * mn(p, 0, 0, 6, 1, 3, 2, 2) + (27) * mn(p, 0, 0, 6, 0, 3, 3, 3))))));
    let cc0 = c0;
    let cc1 = cc0 + c1;
    let cc2 = cc1 + c2;
    let cc3 = cc2 + c3;
    let cc4 = cc3 + c4;
    assert(cc4 == ((((((((27) * mn(p, 6, 0, 0, 3, 3, 0, 0) + (81) * mn(p, 5, 1, 0, 4, 2, 0, 0)) + ((-81) * mn(p, 5, 1, 0, 2, 2, 2, 0) + (-162) * mn(p, 5, 0, 1, 2, 3, 1, 0))) + (((81) * mn(p, 4, 2, 0, 5, 1, 0, 0) + (-162) * mn(p, 4, 2, 0, 3, 1, 2, 0)) + ((27) * mn(p, 4, 2, 0, 2, 3, 1, 0) + ((81) * mn(p, 4, 2, 0, 1, 1, 4, 0) + (-486) * mn(p, 4, 1, 1, 3, 2, 1, 0))))) + ((((27) * mn(p, 4, 1, 1, 2, 4, 0, 0) + (81) * mn(p, 4, 1, 1, 2, 2, 2, 1)) + ((324) * mn(p, 4, 1, 1, 1, 2, 3, 0) + ((-81) * mn(p, 4, 0, 2, 3, 3, 0, 0) + (81) * mn(p, 4, 0, 2, 2, 3, 1, 1)))) + (((324) * mn(p, 4, 0, 2, 1, 3, 2, 0) + (27) * mn(p, 3, 3, 0, 6, 0, 0, 0)) + ((-81) * mn(p, 3, 3, 0, 4, 0, 2, 0) + ((54) * mn(p, 3, 3, 0, 3, 2, 1, 0) + (81) * mn(p, 3, 3, 0, 2, 0, 4, 0)))))) + (((((-54) * mn(p, 3, 3, 0, 1, 2, 3, 0) + (-27) * mn(p, 3, 3, 0, 0, 0, 6, 0)) + ((-486) * mn(p, 3, 2, 1, 4, 1, 1, 0) + ((54) * mn(p, 3, 2, 1, 3, 3, 0, 0) + (162) * mn(p, 3, 2, 1, 3, 1, 2, 1)))) + (((648) * mn(p, 3, 2, 1, 2, 1, 3, 0) + (-162) * mn(p, 3, 2, 1, 1, 3, 2, 0)) + ((-162) * mn(p, 3, 2, 1, 1, 1, 4, 1) + ((-162) * mn(p, 3, 2, 1, 0, 1, 5, 0) + (-162) * mn(p, 3, 1, 2, 4, 2, 0, 0))))) + ((((162) * mn(p, 3, 1, 2, 3, 2, 1, 1) + (1134) * mn(p, 3, 1, 2, 2, 2, 2, 0)) + ((-108) * mn(p, 3, 1, 2, 1, 4, 1, 0) + ((-486) * mn(p, 3, 1, 2, 1, 2, 3, 1) + (-324) * mn(p, 3, 1, 2, 0, 2, 4, 0)))) + (((324) * mn(p, 3, 0, 3, 2, 3, 1, 0) + (-324) * mn(p, 3, 0, 3, 1, 3, 2, 1)) + ((-216) * mn(p, 3, 0, 3, 0, 3, 3, 0) + ((27) * mn(p, 2, 4, 0, 4, 1, 1, 0) + (-54) * mn(p, 2, 4, 0, 2, 1, 3, 0))))))) + ((((((9) * mn(p, 2, 4, 0, 1, 3, 2, 0) + (27) * mn(p, 2, 4, 0, 0, 1, 5, 0)) + ((-162) * mn(p, 2, 3, 1, 5, 0, 1, 0) + ((27) * mn(p, 2, 3, 1, 4, 2, 0, 0) + (81) * mn(p, 2, 3, 1, 4, 0, 2, 1)))) + (((324) * mn(p, 2, 3, 1, 3, 0, 3, 0) + (-270) * mn(p, 2, 3, 1, 2, 2, 2, 0)) + ((-162) * mn(p, 2, 3, 1, 2, 0, 4, 1) + ((18) * mn(p, 2, 3, 1, 1, 4, 1, 0) + (54) * mn(p, 2, 3, 1, 1, 2, 3, 1))))) + ((((-162) * mn(p, 2, 3, 1, 1, 0, 5, 0) + (135) * mn(p, 2, 3, 1, 0, 2, 4, 0)) + ((81) * mn(p, 2, 3, 1, 0, 0, 6, 1) + ((-81) * mn(p, 2, 2, 2, 5, 1, 0, 0) + (81) * mn(p, 2, 2, 2, 4, 1, 1, 1)))) + (((1134) * mn(p, 2, 2, 2, 3, 1, 2, 0) + (-270) * mn(p, 2, 2, 2, 2, 3, 1, 0)) + ((-810) * mn(p, 2, 2, 2, 2, 1, 3, 1) + ((9) * mn(p, 2, 2, 2, 1, 5, 0, 0) + (108) * mn(p, 2, 2, 2, 1, 3, 2, 1)))))) + (((((81) * mn(p, 2, 2, 2, 1, 1, 4, 2) + (-729) * mn(p, 2, 2, 2, 1, 1, 4, 0)) + ((216) * mn(p, 2, 2, 2, 0, 3, 3, 0) + ((405) * mn(p, 2, 2, 2, 0, 1, 5, 1) + (648) * mn(p, 2, 1, 3, 3, 2, 1, 0)))) + (((-54) * mn(p, 2, 1, 3, 2, 4, 0, 0) + (-810) * mn(p, 2, 1, 3, 2, 2, 2, 1)) + ((54) * mn(p, 2, 1, 3, 1, 4, 1, 1) + ((162) * mn(p, 2, 1, 3, 1, 2, 3, 2) + (-972) * mn(p, 2, 1, 3, 1, 2, 3, 0))))) + ((((108) * mn(p, 2, 1, 3, 0, 4, 2, 0) + (648) * mn(p, 2, 1, 3, 0, 2, 4, 1)) + ((81) * mn(p, 2, 0, 4, 3, 3, 0, 0) + ((-162) * mn(p, 2, 0, 4, 2, 3, 1, 1) + (81) * mn(p, 2, 0, 4, 1, 3, 2, 2)))) + (((-324) * mn(p, 2, 0, 4, 1, 3, 2, 0) + (324) * mn(p, 2, 0, 4, 0, 3, 3, 1)) + ((9) * mn(p, 1, 5, 0, 2, 2, 2, 0) + ((-9) * mn(p, 1, 5, 0, 0, 2, 4, 0) + (-108) * mn(p, 1, 4, 1, 3, 1, 2, 0)))))))) + (((((((18) * mn(p, 1, 4, 1, 2, 3, 1, 0) + (54) * mn(p, 1, 4, 1, 2, 1, 3, 1)) + ((108) * mn(p, 1, 4, 1, 1, 1, 4, 0) + (-36) * mn(p, 1, 4, 1, 0, 3, 3, 0))) + (((-54) * mn(p, 1, 4, 1, 0, 1, 5, 1) + (324) * mn(p, 1, 3, 2, 4, 0, 2, 0)) + ((-162) * mn(p, 1, 3, 2, 3, 2, 1, 0) + ((-324) * mn(p, 1, 3, 2, 3, 0, 3, 1) + (9) * mn(p, 1, 3, 2, 2, 4, 0, 0))))) + ((((108) * mn(p, 1, 3, 2, 2, 2, 2, 1) + (81) * mn(p, 1, 3, 2, 2, 0, 4, 2)) + ((-324) * mn(p, 1, 3, 2, 2, 0, 4, 0) + ((378) * mn(p, 1, 3, 2, 1, 2, 3, 0) + (324) * mn(p, 1, 3, 2, 1, 0, 5, 1)))) + (((-45) * mn(p, 1, 3, 2, 0, 4, 2, 0) + (-216) * mn(p, 1, 3, 2, 0, 2, 4, 1)) + ((-81) * mn(p, 1, 3, 2, 0, 0, 6, 2) + ((324) * mn(p, 1, 2, 3, 4, 1, 1, 0) + (-54) * mn(p, 1, 2, 3, 3, 3, 0, 0)))))) + (((((-486) * mn(p, 1, 2, 3, 3, 1, 2, 1) + (54) * mn(p, 1, 2, 3, 2, 3, 1, 1)) + ((162) * mn(p, 1, 2, 3, 2, 1, 3, 2) + ((-972) * mn(p, 1, 2, 3, 2, 1, 3, 0) + (378) * mn(p, 1, 2, 3, 1, 3, 2, 0)))) + (((1134) * mn(p, 1, 2, 3, 1, 1, 4, 1) + (-18) * mn(p, 1, 2, 3, 0, 5, 1, 0)) + ((-270) * mn(p, 1, 2, 3, 0, 3, 3, 1) + ((-324) * mn(p, 1, 2, 3, 0, 1, 5, 2) + (81) * mn(p, 1, 1, 4, 4, 2, 0, 0))))) + ((((-162) * mn(p, 1, 1, 4, 3, 2, 1, 1) + (81) * mn(p, 1, 1, 4, 2, 2, 2, 2)) + ((-729) * mn(p, 1, 1, 4, 2, 2, 2, 0) + ((108) * mn(p, 1, 1, 4, 1, 4, 1, 0) + (1134) * mn(p, 1, 1, 4, 1, 2, 3, 1)))) + (((-108) * mn(p, 1, 1, 4, 0, 4, 2, 1) + (-405) * mn(p, 1, 1, 4, 0, 2, 4, 2)) + ((-162) * mn(p, 1, 0, 5, 2, 3, 1, 0) + ((324) * mn(p, 1, 0, 5, 1, 3, 2, 1) + (-162) * mn(p, 1, 0, 5, 0, 3, 3, 2))))))) + ((((((1) * mn(p, 0, 6, 0, 0, 3, 3, 0) + (-18) * mn(p, 0, 5, 1, 1, 2, 3, 0)) + ((3) * mn(p, 0, 5, 1, 0, 4, 2, 0) + ((9) * mn(p, 0, 5, 1, 0, 2, 4, 1) + (108) * mn(p, 0, 4, 2, 2, 1, 3, 0)))) + (((-45) * mn(p, 0, 4, 2, 1, 3, 2, 0) + (-108) * mn(p, 0, 4, 2, 1, 1, 4, 1)) + ((3) * mn(p, 0, 4, 2, 0, 5, 1, 0) + ((27) * mn(p, 0, 4, 2, 0, 3, 3, 1) + (27) * mn(p, 0, 4, 2, 0, 1, 5, 2))))) + ((((-216) * mn(p, 0, 3, 3, 3, 0, 3, 0) + (216) * mn(p, 0, 3, 3, 2, 2, 2, 0)) + ((324) * mn(p, 0, 3, 3, 2, 0, 4, 1) + ((-36) * mn(p, 0, 3, 3, 1, 4, 1, 0) + (-270) * mn(p, 0, 3, 3, 1, 2, 3, 1)))) + (((-162) * mn(p, 0, 3, 3, 1, 0, 5, 2) + (1) * mn(p, 0, 3, 3, 0, 6, 0, 0)) + ((27) * mn(p, 0, 3, 3, 0, 4, 2, 1) + ((81) * mn(p, 0, 3, 3, 0, 2, 4, 2) + (27) * mn(p, 0, 3, 3, 0, 0, 6, 3)))))) + (((((-324) * mn(p, 0, 2, 4, 3, 1, 2, 0) + (135) * mn(p, 0, 2, 4, 2, 3, 1, 0)) + ((648) * mn(p, 0, 2, 4, 2, 1, 3, 1) + ((-9) * mn(p, 0, 2, 4, 1, 5, 0, 0) + (-216) * mn(p, 0, 2, 4, 1, 3, 2, 1)))) + (((-405) * mn(p, 0, 2, 4, 1, 1, 4, 2) + (9) * mn(p, 0, 2, 4, 0, 5, 1, 1)) + ((81) * mn(p, 0, 2, 4, 0, 3, 3, 2) + ((81) * mn(p, 0, 2, 4, 0, 1, 5, 3) + (-162) * mn(p, 0, 1, 5, 3, 2, 1, 0))))) + ((((27) * mn(p, 0, 1, 5, 2, 4, 0, 0) + (405) * mn(p, 0, 1, 5, 2, 2, 2, 1)) + ((-54) * mn(p, 0, 1, 5, 1, 4, 1, 1) + ((-324) * mn(p, 0, 1, 5, 1, 2, 3, 2) + (27) * mn(p, 0, 1, 5, 0, 4, 2, 2)))) + (((81) * mn(p, 0, 1, 5, 0, 2, 4, 3) + (-27) * mn(p, 0, 0, 6, 3, 3, 0, 0)) + ((81) * mn(p, 0, 0, 6, 2, 3, 1, 1) + ((-81) * mn(p, 0, 0, 6, 1, 3, 2, 2) + (27) * mn(p, 0, 0, 6, 0, 3, 3, 3))))))))));
    let q = (1) * mn(p, 0, 0, 0, 0, 0, 0, 1);
    lemma_mul_is_distributive_add_other_way(q, cc0, c1);
    lemma_mul_is_distributive_add_other_way(q, cc1, c2);
    lemma_mul_is_distributive_add_other_way(q, cc2, c3);
    lemma_mul_is_distributive_add_other_way(q, cc3, c4);
    acb_prod21_c0(p);
    assert(c0 * q == ((((((27) * mn(p, 6, 0, 0, 3, 3, 0, 1) + (81) * mn(p, 5, 1, 0, 4, 2, 0, 1)) + ((-81) * mn(p, 5, 1, 0, 2, 2, 2, 1) + (-162) * mn(p, 5, 0, 1, 2, 3, 1, 1))) + (((81) * mn(p, 4, 2, 0, 5, 1, 0, 1) + (-162) * mn(p, 4, 2, 0, 3, 1, 2, 1)) + ((27) * mn(p, 4, 2, 0, 2, 3, 1, 1) + (81) * mn(p, 4, 2, 0, 1, 1, 4, 1)))) + ((((-486) * mn(p, 4, 1, 1, 3, 2, 1, 1) + (27) * mn(p, 4, 1, 1, 2, 4, 0, 1)) + ((81) * mn(p, 4, 1, 1, 2, 2, 2, 2) + (324) * mn(p, 4, 1, 1, 1, 2, 3, 1))) + (((-81) * mn(p, 4, 0, 2, 3, 3, 0, 1) + (81) * mn(p, 4, 0, 2, 2, 3, 1, 2)) + ((324) * mn(p, 4, 0, 2, 1, 3, 2, 1) + (27) * mn(p, 3, 3, 0, 6, 0, 0, 1))))) + (((((-81) * mn(p, 3, 3, 0, 4, 0, 2, 1) + (54) * mn(p, 3, 3, 0, 3, 2, 1, 1)) + ((81) * mn(p, 3, 3, 0, 2, 0, 4, 1) + (-54) * mn(p, 3, 3, 0, 1, 2, 3, 1))) + (((-27) * mn(p, 3, 3, 0, 0, 0, 6, 1) + (-486) * mn(p, 3, 2, 1, 4, 1, 1, 1)) + ((54) * mn(p, 3, 2, 1, 3, 3, 0, 1) + (162) * mn(p, 3, 2, 1, 3, 1, 2, 2)))) + ((((648) * mn(p, 3, 2, 1, 2, 1, 3, 1) + (-162) * mn(p, 3, 2, 1, 1, 3, 2, 1)) + ((-162) * mn(p, 3, 2, 1, 1, 1, 4, 2) + (-162) * mn(p, 3, 2, 1, 0, 1, 5, 1))) + (((-162) * mn(p, 3, 1, 2, 4, 2, 0, 1) + (162) * mn(p, 3, 1, 2, 3, 2, 1, 2)) + ((1134) * mn(p, 3, 1, 2, 2, 2, 2, 1) + (-108) * mn(p, 3, 1, 2, 1, 4, 1, 1)))))));
    acb_prod21_c1(p);
    assert(c1 * q == ((((((-486) * mn(p, 3, 1, 2, 1, 2, 3, 2) + (-324) * mn(p, 3, 1, 2, 0, 2, 4, 1)) + ((324) * mn(p, 3, 0, 3, 2, 3, 1, 1) + (-324) * mn(p, 3, 0, 3, 1, 3, 2, 2))) + (((-216) * mn(p, 3, 0, 3, 0, 3, 3, 1) + (27) * mn(p, 2, 4, 0, 4, 1, 1, 1)) + ((-54) * mn(p, 2, 4, 0, 2, 1, 3, 1) + (9) * mn(p, 2, 4, 0, 1, 3, 2, 1)))) + ((((27) * mn(p, 2, 4, 0, 0, 1, 5, 1) + (-162) * mn(p, 2, 3, 1, 5, 0, 1, 1)) + ((27) * mn(p, 2, 3, 1, 4, 2, 0, 1) + (81) * mn(p, 2, 3, 1, 4, 0, 2, 2))) + (((324) * mn(p, 2, 3, 1, 3, 0, 3, 1) + (-270) * mn(p, 2, 3, 1, 2, 2, 2, 1)) + ((-162) * mn(p, 2, 3, 1, 2, 0, 4, 2) + (18) * mn(p, 2, 3, 1, 1, 4, 1, 1))))) + (((((54) * mn(p, 2, 3, 1, 1, 2, 3, 2) + (-162) * mn(p, 2, 3, 1, 1, 0, 5, 1)) + ((135) * mn(p, 2, 3, 1, 0, 2, 4, 1) + (81) * mn(p, 2, 3, 1, 0, 0, 6, 2))) + (((-81) * mn(p, 2, 2, 2, 5, 1, 0, 1) + (81) * mn(p, 2, 2, 2, 4, 1, 1, 2)) + ((1134) * mn(p, 2, 2, 2, 3, 1, 2, 1) + (-270) * mn(p, 2, 2, 2, 2, 3, 1, 1)))) + ((((-810) * mn(p, 2, 2, 2, 2, 1, 3, 2) + (9) * mn(p, 2, 2, 2, 1, 5, 0, 1)) + ((108) * mn(p, 2, 2, 2, 1, 3, 2, 2) + (81) * mn(p, 2, 2, 2, 1, 1, 4, 3))) + (((-729) * mn(p, 2, 2, 2, 1, 1, 4, 1) + (216) * mn(p, 2, 2, 2, 0, 3, 3, 1)) + ((405) * mn(p, 2, 2, 2, 0, 1, 5, 2) + (648) * mn(p, 2, 1, 3, 3, 2, 1, 1)))))));
    acb_prod21_c2(p);
    assert(c2 * q == ((((((-54) * mn(p, 2, 1, 3, 2, 4, 0, 1) + (-810) * mn(p, 2, 1, 3, 2, 2, 2, 2)) + ((54) * mn(p, 2, 1, 3, 1, 4, 1, 2) + (162) * mn(p, 2, 1, 3, 1, 2, 3, 3))) + (((-972) * mn(p, 2, 1, 3, 1, 2, 3, 1) + (108) * mn(p, 2, 1, 3, 0, 4, 2, 1)) + ((648) * mn(p, 2, 1, 3, 0, 2, 4, 2) + (81) * mn(p, 2, 0, 4, 3, 3, 0, 1)))) + ((((-162) * mn(p, 2, 0, 4, 2, 3, 1, 2) + (81) * mn(p, 2, 0, 4, 1, 3, 2, 3)) + ((-324) * mn(p, 2, 0, 4, 1, 3, 2, 1) + (324) * mn(p, 2, 0, 4, 0, 3, 3, 2))) + (((9) * mn(p, 1, 5, 0, 2, 2, 2, 1) + (-9) * mn(p, 1, 5, 0, 0, 2, 4, 1)) + ((-108) * mn(p, 1, 4, 1, 3, 1, 2, 1) + (18) * mn(p, 1, 4, 1, 2, 3, 1, 1))))) + (((((54) * mn(p, 1, 4, 1, 2, 1, 3, 2) + (108) * mn(p, 1, 4, 1, 1, 1, 4, 1)) + ((-36) * mn(p, 1, 4, 1, 0, 3, 3, 1) + (-54) * mn(p, 1, 4, 1, 0, 1, 5, 2))) + (((324) * mn(p, 1, 3, 2, 4, 0, 2, 1) + (-162) * mn(p, 1, 3, 2, 3, 2, 1, 1)) + ((-324) * mn(p, 1, 3, 2, 3, 0, 3, 2) + (9) * mn(p, 1, 3, 2, 2, 4, 0, 1)))) + ((((108) * mn(p, 1, 3, 2, 2, 2, 2, 2) + (81) * mn(p, 1, 3, 2, 2, 0, 4, 3)) + ((-324) * mn(p, 1, 3, 2, 2, 0, 4, 1) + (378) * mn(p, 1, 3, 2, 1, 2, 3, 1))) + (((324) * mn(p, 1, 3, 2, 1, 0, 5, 2) + (-45) * mn(p, 1, 3, 2, 0, 4, 2, 1)) + ((-216) * mn(p, 1, 3, 2, 0, 2, 4, 2) + (-81) * mn(p, 1, 3, 2, 0, 0, 6, 3)))))));
    acb_prod21_c3(p);
    assert(c3 * q == ((((((324) * mn(p, 1, 2, 3, 4, 1, 1, 1) + (-54) * mn(p, 1, 2, 3, 3, 3, 0, 1)) + ((-486) * mn(p, 1, 2, 3, 3, 1, 2, 2) + (54) * mn(p, 1, 2, 3, 2, 3, 1, 2))) + (((162) * mn(p, 1, 2, 3, 2, 1, 3, 3) + (-972) * mn(p, 1, 2, 3, 2, 1, 3, 1)) + ((378) * mn(p, 1, 2, 3, 1, 3, 2, 1) + (1134) * mn(p, 1, 2, 3, 1, 1, 4, 2)))) + ((((-18) * mn(p, 1, 2, 3, 0, 5, 1, 1) + (-270) * mn(p, 1, 2, 3, 0, 3, 3, 2)) + ((-324) * mn(p, 1, 2, 3, 0, 1, 5, 3) + (81) * mn(p, 1, 1, 4, 4, 2, 0, 1))) + (((-162) * mn(p, 1, 1, 4, 3, 2, 1, 2) + (81) * mn(p, 1, 1, 4, 2, 2, 2, 3)) + ((-729) * mn(p, 1, 1, 4, 2, 2, 2, 1) + (108) * mn(p, 1, 1, 4, 1, 4, 1, 1))))) + (((((1134) * mn(p, 1, 1, 4, 1, 2, 3, 2) + (-108) * mn(p, 1, 1, 4, 0, 4, 2, 2)) + ((-405) * mn(p, 1, 1, 4, 0, 2, 4, 3) + (-162) * mn(p, 1, 0, 5, 2, 3, 1, 1))) + (((324) * mn(p, 1, 0, 5, 1, 3, 2, 2) + (-162) * mn(p, 1, 0, 5, 0, 3, 3, 3)) + ((1) * mn(p, 0, 6, 0, 0, 3, 3, 1) + (-18) * mn(p, 0, 5, 1, 1, 2, 3, 1)))) + ((((3) * mn(p, 0, 5, 1, 0, 4, 2, 1) + (9) * mn(p, 0, 5, 1, 0, 2, 4, 2)) + ((108) * mn(p, 0, 4, 2, 2, 1, 3, 1) + (-45) * mn(p, 0, 4, 2, 1, 3, 2, 1))) + (((-108) * mn(p, 0, 4, 2, 1, 1, 4, 2) + (3) * mn(p, 0, 4, 2, 0, 5, 1, 1)) + ((27) * mn(p, 0, 4, 2, 0, 3, 3, 2) + (27) * mn(p, 0, 4, 2, 0, 1, 5, 3)))))));
    acb_prod21_c4(p);
    assert(c4 * q == (((((-216) * mn(p, 0, 3, 3, 3, 0, 3, 1) + ((216) * mn(p, 0, 3, 3, 2, 2, 2, 1) + (324) * mn(p, 0, 3, 3, 2, 0, 4, 2))) + (((-36) * mn(p, 0, 3, 3, 1, 4, 1, 1) + (-270) * mn(p, 0, 3, 3, 1, 2, 3, 2)) + ((-162) * mn(p, 0, 3, 3, 1, 0, 5, 3) + (1) * mn(p, 0, 3, 3, 0, 6, 0, 1)))) + ((((27) * mn(p, 0, 3, 3, 0, 4, 2, 2) + (81) * mn(p, 0, 3, 3, 0, 2, 4, 3)) + ((27) * mn(p, 0, 3, 3, 0, 0, 6, 4) + (-324) * mn(p, 0, 2, 4, 3, 1, 2, 1))) + (((135) * mn(p, 0, 2, 4, 2, 3, 1, 1) + (648) * mn(p, 0, 2, 4, 2, 1, 3, 2)) + ((-9) * mn(p, 0, 2, 4, 1, 5, 0, 1) + (-216) * mn(p, 0, 2, 4, 1, 3, 2, 2))))) + ((((-405) * mn(p, 0, 2, 4, 1, 1, 4, 3) + ((9) * mn(p, 0, 2, 4, 0, 5, 1, 2) + (81) * mn(p, 0, 2, 4, 0, 3, 3, 3))) + (((81) * mn(p, 0, 2, 4, 0, 1, 5, 4) + (-162) * mn(p, 0, 1, 5, 3, 2, 1, 1)) + ((27) * mn(p, 0, 1, 5, 2, 4, 0, 1) + (405) * mn(p, 0, 1, 5, 2, 2, 2, 2)))) + ((((-54) * mn(p, 0, 1, 5, 1, 4, 1, 2) + (-324) * mn(p, 0, 1, 5, 1, 2, 3, 3)) + ((27) * mn(p, 0, 1, 5, 0, 4, 2, 3) + (81) * mn(p, 0, 1, 5, 0, 2, 4, 4))) + (((-27) * mn(p, 0, 0, 6, 3, 3, 0, 1) + (81) * mn(p, 0, 0, 6, 2, 3, 1, 2)) + ((-81) * mn(p, 0, 0, 6, 1, 3, 2, 3) + (27) * mn(p, 0, 0, 6, 0, 3, 3, 4)))))));
    assert(cc4 * q == ((((((((27) * mn(p, 6, 0, 0, 3, 3, 0, 1) + (81) * mn(p, 5, 1, 0, 4, 2, 0, 1)) + ((-81) * mn(p, 5, 1, 0, 2, 2, 2, 1) + (-162) * mn(p, 5, 0, 1, 2, 3, 1, 1))) + (((81) * mn(p, 4, 2, 0, 5, 1, 0, 1) + (-162) * mn(p, 4, 2, 0, 3, 1, 2, 1)) + ((27) * mn(p, 4, 2, 0, 2, 3, 1, 1) + ((81) * mn(p, 4, 2, 0, 1, 1, 4, 1) + (-486) * mn(p, 4, 1, 1, 3, 2, 1, 1))))) + ((((27) * mn(p, 4, 1, 1, 2, 4, 0, 1) + (81) * mn(p, 4, 1, 1, 2, 2, 2, 2)) + ((324) * mn(p, 4, 1, 1, 1, 2, 3, 1) + ((-81) * mn(p, 4, 0, 2, 3, 3, 0, 1) + (81) * mn(p, 4, 0, 2, 2, 3, 1, 2)))) + (((324) * mn(p, 4, 0, 2, 1, 3, 2, 1) + (27) * mn(p, 3, 3, 0, 6, 0, 0, 1)) + ((-81) * mn(p, 3, 3, 0, 4, 0, 2, 1) + ((54) * mn(p, 3, 3, 0, 3, 2, 1, 1) + (81) * mn(p, 3, 3, 0, 2, 0, 4, 1)))))) + (((((-54) * mn(p, 3, 3, 0, 1, 2, 3, 1) + (-27) * mn(p, 3, 3, 0, 0, 0, 6, 1)) + ((-486) * mn(p, 3, 2, 1, 4, 1, 1, 1) + ((54) * mn(p, 3, 2, 1, 3, 3, 0, 1) + (162) * mn(p, 3, 2, 1, 3, 1, 2, 2)))) + (((648) * mn(p, 3, 2, 1, 2, 1, 3, 1) + (-162) * mn(p, 3, 2, 1, 1, 3, 2, 1)) + ((-162) * mn(p, 3, 2, 1, 1, 1, 4, 2) + ((-162) * mn(p, 3, 2, 1, 0, 1, 5, 1) + (-162) * mn(p, 3, 1, 2, 4, 2, 0, 1))))) + ((((162) * mn(p, 3, 1, 2, 3, 2, 1, 2) + (1134) * mn(p, 3, 1, 2, 2, 2, 2, 1)) + ((-108) * mn(p, 3, 1, 2, 1, 4, 1, 1) + ((-486) * mn(p, 3, 1, 2, 1, 2, 3, 2) + (-324) * mn(p, 3, 1, 2, 0, 2, 4, 1)))) + (((324) * mn(p, 3, 0, 3, 2, 3, 1, 1) + (-324) * mn(p, 3, 0, 3, 1, 3, 2, 2)) + ((-216) * mn(p, 3, 0, 3, 0, 3, 3, 1) + ((27) * mn(p, 2, 4, 0, 4, 1, 1, 1) + (-54) * mn(p, 2, 4, 0, 2, 1, 3, 1))))))) + ((((((9) * mn(p, 2, 4, 0, 1, 3, 2, 1) + (27) * mn(p, 2, 4, 0, 0, 1, 5, 1)) + ((-162) * mn(p, 2, 3, 1, 5, 0, 1, 1) + ((27) * mn(p, 2, 3, 1, 4, 2, 0, 1) + (81) * mn(p, 2, 3, 1, 4, 0, 2, 2)))) + (((324) * mn(p, 2, 3, 1, 3, 0, 3, 1) + (-270) * mn(p, 2, 3, 1, 2, 2, 2, 1)) + ((-162) * mn(p, 2, 3, 1, 2, 0, 4, 2) + ((18) * mn(p, 2, 3, 1, 1, 4, 1, 1) + (54) * mn(p, 2, 3, 1, 1, 2, 3, 2))))) + ((((-162) * mn(p, 2, 3, 1, 1, 0, 5, 1) + (135) * mn(p, 2, 3, 1, 0, 2, 4, 1)) + ((81) * mn(p, 2, 3, 1, 0, 0, 6, 2) + ((-81) * mn(p, 2, 2, 2, 5, 1, 0, 1) + (81) * mn(p, 2, 2, 2, 4, 1, 1, 2)))) + (((1134) * mn(p, 2, 2, 2, 3, 1, 2, 1) + (-270) * mn(p, 2, 2, 2, 2, 3, 1, 1)) + ((-810) * mn(p, 2, 2, 2, 2, 1, 3, 2) + ((9) * mn(p, 2, 2, 2, 1, 5, 0, 1) + (108) * mn(p, 2, 2, 2, 1, 3, 2, 2)))))) + (((((81) * mn(p, 2, 2, 2, 1, 1, 4, 3) + (-729) * mn(p, 2, 2, 2, 1, 1, 4, 1)) + ((216) * mn(p, 2, 2, 2, 0, 3, 3, 1) + ((405) * mn(p, 2, 2, 2, 0, 1, 5, 2) + (648) * mn(p, 2, 1, 3, 3, 2, 1, 1)))) + (((-54) * mn(p, 2, 1, 3, 2, 4, 0, 1) + (-810) * mn(p, 2, 1, 3, 2, 2, 2, 2)) + ((54) * mn(p, 2, 1, 3, 1, 4, 1, 2) + ((162) * mn(p, 2, 1, 3, 1, 2, 3, 3) + (-972) * mn(p, 2, 1, 3, 1, 2, 3, 1))))) + ((((108) * mn(p, 2, 1, 3, 0, 4, 2, 1) + (648) * mn(p, 2, 1, 3, 0, 2, 4, 2)) + ((81) * mn(p, 2, 0, 4, 3, 3, 0, 1) + ((-162) * mn(p, 2, 0, 4, 2, 3, 1, 2) + (81) * mn(p, 2, 0, 4, 1, 3, 2, 3)))) + (((-324) * mn(p, 2, 0, 4, 1, 3, 2, 1) + (324) * mn(p, 2, 0, 4, 0, 3, 3, 2)) + ((9) * mn(p, 1, 5, 0, 2, 2, 2, 1) + ((-9) * mn(p, 1, 5, 0, 0, 2, 4, 1) + (-108) * mn(p, 1, 4, 1, 3, 1, 2, 1)))))))) + (((((((18) * mn(p, 1, 4, 1, 2, 3, 1, 1) + (54) * mn(p, 1, 4, 1, 2, 1, 3, 2)) + ((108) * mn(p, 1, 4, 1, 1, 1, 4, 1) + (-36) * mn(p, 1, 4, 1, 0, 3, 3, 1))) + (((-54) * mn(p, 1, 4, 1, 0, 1, 5, 2) + (324) * mn(p, 1, 3, 2, 4, 0, 2, 1)) + ((-162) * mn(p, 1, 3, 2, 3, 2, 1, 1) + ((-324) * mn(p, 1, 3, 2, 3, 0, 3, 2) + (9) * mn(p, 1, 3, 2, 2, 4, 0, 1))))) + ((((108) * mn(p, 1, 3, 2, 2, 2, 2, 2) + (81) * mn(p, 1, 3, 2, 2, 0, 4, 3)) + ((-324) * mn(p, 1, 3, 2, 2, 0, 4, 1) + ((378) * mn(p, 1, 3, 2, 1, 2, 3, 1) + (324) * mn(p, 1, 3, 2, 1, 0, 5, 2)))) + (((-45) * mn(p, 1, 3, 2, 0, 4, 2, 1) + (-216) * mn(p, 1, 3, 2, 0, 2, 4, 2)) + ((-81) * mn(p, 1, 3, 2, 0, 0, 6, 3) + ((324) * mn(p, 1, 2, 3, 4, 1, 1, 1) + (-54) * mn(p, 1, 2, 3, 3, 3, 0, 1)))))) + (((((-486) * mn(p, 1, 2, 3, 3, 1, 2, 2) + (54) * mn(p, 1, 2, 3, 2, 3, 1, 2)) + ((162) * mn(p, 1, 2, 3, 2, 1, 3, 3) + ((-972) * mn(p, 1, 2, 3, 2, 1, 3, 1) + (378) * mn(p, 1, 2, 3, 1, 3, 2, 1)))) + (((1134) * mn(p, 1, 2, 3, 1, 1, 4, 2) + (-18) * mn(p, 1, 2, 3, 0, 5, 1, 1)) + ((-270) * mn(p, 1, 2, 3, 0, 3, 3, 2) + ((-324) * mn(p, 1, 2, 3, 0, 1, 5, 3) + (81) * mn(p, 1, 1, 4, 4, 2, 0, 1))))) + ((((-162) * mn(p, 1, 1, 4, 3, 2, 1, 2) + (81) * mn(p, 1, 1, 4, 2, 2, 2, 3)) + ((-729) * mn(p, 1, 1, 4, 2, 2, 2, 1) + ((108) * mn(p, 1, 1, 4, 1, 4, 1, 1) + (1134) * mn(p, 1, 1, 4, 1, 2, 3, 2)))) + (((-108) * mn(p, 1, 1, 4, 0, 4, 2, 2) + (-405) * mn(p, 1, 1, 4, 0, 2, 4, 3)) + ((-162) * mn(p, 1, 0, 5, 2, 3, 1, 1) + ((324) * mn(p, 1, 0, 5, 1, 3, 2, 2) + (-162) * mn(p, 1, 0, 5, 0, 3, 3, 3))))))) + ((((((1) * mn(p, 0, 6, 0, 0, 3, 3, 1) + (-18) * mn(p, 0, 5, 1, 1, 2, 3, 1)) + ((3) * mn(p, 0, 5, 1, 0, 4, 2, 1) + ((9) * mn(p, 0, 5, 1, 0, 2, 4, 2) + (108) * mn(p, 0, 4, 2, 2, 1, 3, 1)))) + (((-45) * mn(p, 0, 4, 2, 1, 3, 2, 1) + (-108) * mn(p, 0, 4, 2, 1, 1, 4, 2)) + ((3) * mn(p, 0, 4, 2, 0, 5, 1, 1) + ((27) * mn(p, 0, 4, 2, 0, 3, 3, 2) + (27) * mn(p, 0, 4, 2, 0, 1, 5, 3))))) + ((((-216) * mn(p, 0, 3, 3, 3, 0, 3, 1) + (216) * mn(p, 0, 3, 3, 2, 2, 2, 1)) + ((324) * mn(p, 0, 3, 3, 2, 0, 4, 2) + ((-36) * mn(p, 0, 3, 3, 1, 4, 1, 1) + (-270) * mn(p, 0, 3, 3, 1, 2, 3, 2)))) + (((-162) * mn(p, 0, 3, 3, 1, 0, 5, 3) + (1) * mn(p, 0, 3, 3, 0, 6, 0, 1)) + ((27) * mn(p, 0, 3, 3, 0, 4, 2, 2) + ((81) * mn(p, 0, 3, 3, 0, 2, 4, 3) + (27) * mn(p, 0, 3, 3, 0, 0, 6, 4)))))) + (((((-324) * mn(p, 0, 2, 4, 3, 1, 2, 1) + (135) * mn(p, 0, 2, 4, 2, 3, 1, 1)) + ((648) * mn(p, 0, 2, 4, 2, 1, 3, 2) + ((-9) * mn(p, 0, 2, 4, 1, 5, 0, 1) + (-216) * mn(p, 0, 2, 4, 1, 3, 2, 2)))) + (((-405) * mn(p, 0, 2, 4, 1, 1, 4, 3) + (9) * mn(p, 0, 2, 4, 0, 5, 1, 2)) + ((81) * mn(p, 0, 2, 4, 0, 3, 3, 3) + ((81) * mn(p, 0, 2, 4, 0, 1, 5, 4) + (-162) * mn(p, 0, 1, 5, 3, 2, 1, 1))))) + ((((27) * mn(p, 0, 1, 5, 2, 4, 0, 1) + (405) * mn(p, 0, 1, 5, 2, 2, 2, 2)) + ((-54) * mn(p, 0, 1, 5, 1, 4, 1, 2) + ((-324) * mn(p, 0, 1, 5, 1, 2, 3, 3) + (27) * mn(p, 0, 1, 5, 0, 4, 2, 3)))) + (((81) * mn(p, 0, 1, 5, 0, 2, 4, 4) + (-27) * mn(p, 0, 0, 6, 3, 3, 0, 1)) + ((81) * mn(p, 0, 0, 6, 2, 3, 1, 2) + ((-81) * mn(p, 0, 0, 6, 1, 3, 2, 3) + (27) * mn(p, 0, 0, 6, 0, 3, 3, 4))))))))));
    lemma_mul_is_commutative(((((((((27) * mn(p, 6, 0, 0, 3, 3, 0, 0) + (81) * mn(p, 5, 1, 0, 4, 2, 0, 0)) + ((-81) * mn(p, 5, 1, 0, 2, 2, 2, 0) + (-162) * mn(p, 5, 0, 1, 2, 3, 1, 0))) + (((81) * mn(p, 4, 2, 0, 5, 1, 0, 0) + (-162) * mn(p, 4, 2, 0, 3, 1, 2, 0)) + ((27) * mn(p, 4, 2, 0, 2, 3, 1, 0) + ((81) * mn(p, 4, 2, 0, 1, 1, 4, 0) + (-486) * mn(p, 4, 1, 1, 3, 2, 1, 0))))) + ((((27) * mn(p, 4, 1, 1, 2, 4, 0, 0) + (81) * mn(p, 4, 1, 1, 2, 2, 2, 1)) + ((324) * mn(p, 4, 1, 1, 1, 2, 3, 0) + ((-81) * mn(p, 4, 0, 2, 3, 3, 0, 0) + (81) * mn(p, 4, 0, 2, 2, 3, 1, 1)))) + (((324) * mn(p, 4, 0, 2, 1, 3, 2, 0) + (27) * mn(p, 3, 3, 0, 6, 0, 0, 0)) + ((-81) * mn(p, 3, 3, 0, 4, 0, 2, 0) + ((54) * mn(p, 3, 3, 0, 3, 2, 1, 0) + (81) * mn(p, 3, 3, 0, 2, 0, 4, 0)))))) + (((((-54) * mn(p, 3, 3, 0, 1, 2, 3, 0) + (-27) * mn(p, 3, 3, 0, 0, 0, 6, 0)) + ((-486) * mn(p, 3, 2, 1, 4, 1, 1, 0) + ((54) * mn(p, 3, 2, 1, 3, 3, 0, 0) + (162) * mn(p, 3, 2, 1, 3, 1, 2, 1)))) + (((648) * mn(p, 3, 2, 1, 2, 1, 3, 0) + (-162) * mn(p, 3, 2, 1, 1, 3, 2, 0)) + ((-162) * mn(p, 3, 2, 1, 1, 1, 4, 1) + ((-162) * mn(p, 3, 2, 1, 0, 1, 5, 0) + (-162) * mn(p, 3, 1, 2, 4, 2, 0, 0))))) + ((((162) * mn(p, 3, 1, 2, 3, 2, 1, 1) + (1134) * mn(p, 3, 1, 2, 2, 2, 2, 0)) + ((-108) * mn(p, 3, 1, 2, 1, 4, 1, 0) + ((-486) * mn(p, 3, 1, 2, 1, 2, 3, 1) + (-324) * mn(p, 3, 1, 2, 0, 2, 4, 0)))) + (((324) * mn(p, 3, 0, 3, 2, 3, 1, 0) + (-324) * mn(p, 3, 0, 3, 1, 3, 2, 1)) + ((-216) * mn(p, 3, 0, 3, 0, 3, 3, 0) + ((27) * mn(p, 2, 4, 0, 4, 1, 1, 0) + (-54) * mn(p, 2, 4, 0, 2, 1, 3, 0))))))) + ((((((9) * mn(p, 2, 4, 0, 1, 3, 2, 0) + (27) * mn(p, 2, 4, 0, 0, 1, 5, 0)) + ((-162) * mn(p, 2, 3, 1, 5, 0, 1, 0) + ((27) * mn(p, 2, 3, 1, 4, 2, 0, 0) + (81) * mn(p, 2, 3, 1, 4, 0, 2, 1)))) + (((324) * mn(p, 2, 3, 1, 3, 0, 3, 0) + (-270) * mn(p, 2, 3, 1, 2, 2, 2, 0)) + ((-162) * mn(p, 2, 3, 1, 2, 0, 4, 1) + ((18) * mn(p, 2, 3, 1, 1, 4, 1, 0) + (54) * mn(p, 2, 3, 1, 1, 2, 3, 1))))) + ((((-162) * mn(p, 2, 3, 1, 1, 0, 5, 0) + (135) * mn(p, 2, 3, 1, 0, 2, 4, 0)) + ((81) * mn(p, 2, 3, 1, 0, 0, 6, 1) + ((-81) * mn(p, 2, 2, 2, 5, 1, 0, 0) + (81) * mn(p, 2, 2, 2, 4, 1, 1, 1)))) + (((1134) * mn(p, 2, 2, 2, 3, 1, 2, 0) + (-270) * mn(p, 2, 2, 2, 2, 3, 1, 0)) + ((-810) * mn(p, 2, 2, 2, 2, 1, 3, 1) + ((9) * mn(p, 2, 2, 2, 1, 5, 0, 0) + (108) * mn(p, 2, 2, 2, 1, 3, 2, 1)))))) + (((((81) * mn(p, 2, 2, 2, 1, 1, 4, 2) + (-729) * mn(p, 2, 2, 2, 1, 1, 4, 0)) + ((216) * mn(p, 2, 2, 2, 0, 3, 3, 0) + ((405) * mn(p, 2, 2, 2, 0, 1, 5, 1) + (648) * mn(p, 2, 1, 3, 3, 2, 1, 0)))) + (((-54) * mn(p, 2, 1, 3, 2, 4, 0, 0) + (-810) * mn(p, 2, 1, 3, 2, 2, 2, 1)) + ((54) * mn(p, 2, 1, 3, 1, 4, 1, 1) + ((162) * mn(p, 2, 1, 3, 1, 2, 3, 2) + (-972) * mn(p, 2, 1, 3, 1, 2, 3, 0))))) + ((((108) * mn(p, 2, 1, 3, 0, 4, 2, 0) + (648) * mn(p, 2, 1, 3, 0, 2, 4, 1)) + ((81) * mn(p, 2, 0, 4, 3, 3, 0, 0) + ((-162) * mn(p, 2, 0, 4, 2, 3, 1, 1) + (81) * mn(p, 2, 0, 4, 1, 3, 2, 2)))) + (((-324) * mn(p, 2, 0, 4, 1, 3, 2, 0) + (324) * mn(p, 2, 0, 4, 0, 3, 3, 1)) + ((9) * mn(p, 1, 5, 0, 2, 2, 2, 0) + ((-9) * mn(p, 1, 5, 0, 0, 2, 4, 0) + (-108) * mn(p, 1, 4, 1, 3, 1, 2, 0)))))))) + (((((((18) * mn(p, 1, 4, 1, 2, 3, 1, 0) + (54) * mn(p, 1, 4, 1, 2, 1, 3, 1)) + ((108) * mn(p, 1, 4, 1, 1, 1, 4, 0) + (-36) * mn(p, 1, 4, 1, 0, 3, 3, 0))) + (((-54) * mn(p, 1, 4, 1, 0, 1, 5, 1) + (324) * mn(p, 1, 3, 2, 4, 0, 2, 0)) + ((-162) * mn(p, 1, 3, 2, 3, 2, 1, 0) + ((-324) * mn(p, 1, 3, 2, 3, 0, 3, 1) + (9) * mn(p, 1, 3, 2, 2, 4, 0, 0))))) + ((((108) * mn(p, 1, 3, 2, 2, 2, 2, 1) + (81) * mn(p, 1, 3, 2, 2, 0, 4, 2)) + ((-324) * mn(p, 1, 3, 2, 2, 0, 4, 0) + ((378) * mn(p, 1, 3, 2, 1, 2, 3, 0) + (324) * mn(p, 1, 3, 2, 1, 0, 5, 1)))) + (((-45) * mn(p, 1, 3, 2, 0, 4, 2, 0) + (-216) * mn(p, 1, 3, 2, 0, 2, 4, 1)) + ((-81) * mn(p, 1, 3, 2, 0, 0, 6, 2) + ((324) * mn(p, 1, 2, 3, 4, 1, 1, 0) + (-54) * mn(p, 1, 2, 3, 3, 3, 0, 0)))))) + (((((-486) * mn(p, 1, 2, 3, 3, 1, 2, 1) + (54) * mn(p, 1, 2, 3, 2, 3, 1, 1)) + ((162) * mn(p, 1, 2, 3, 2, 1, 3, 2) + ((-972) * mn(p, 1, 2, 3, 2, 1, 3, 0) + (378) * mn(p, 1, 2, 3, 1, 3, 2, 0)))) + (((1134) * mn(p, 1, 2, 3, 1, 1, 4, 1) + (-18) * mn(p, 1, 2, 3, 0, 5, 1, 0)) + ((-270) * mn(p, 1, 2, 3, 0, 3, 3, 1) + ((-324) * mn(p, 1, 2, 3, 0, 1, 5, 2) + (81) * mn(p, 1, 1, 4, 4, 2, 0, 0))))) + ((((-162) * mn(p, 1, 1, 4, 3, 2, 1, 1) + (81) * mn(p, 1, 1, 4, 2, 2, 2, 2)) + ((-729) * mn(p, 1, 1, 4, 2, 2, 2, 0) + ((108) * mn(p, 1, 1, 4, 1, 4, 1, 0) + (1134) * mn(p, 1, 1, 4, 1, 2, 3, 1)))) + (((-108) * mn(p, 1, 1, 4, 0, 4, 2, 1) + (-405) * mn(p, 1, 1, 4, 0, 2, 4, 2)) + ((-162) * mn(p, 1, 0, 5, 2, 3, 1, 0) + ((324) * mn(p, 1, 0, 5, 1, 3, 2, 1) + (-162) * mn(p, 1, 0, 5, 0, 3, 3, 2))))))) + ((((((1) * mn(p, 0, 6, 0, 0, 3, 3, 0) + (-18) * mn(p, 0, 5, 1, 1, 2, 3, 0)) + ((3) * mn(p, 0, 5, 1, 0, 4, 2, 0) + ((9) * mn(p, 0, 5, 1, 0, 2, 4, 1) + (108) * mn(p, 0, 4, 2, 2, 1, 3, 0)))) + (((-45) * mn(p, 0, 4, 2, 1, 3, 2, 0) + (-108) * mn(p, 0, 4, 2, 1, 1, 4, 1)) + ((3) * mn(p, 0, 4, 2, 0, 5, 1, 0) + ((27) * mn(p, 0, 4, 2, 0, 3, 3, 1) + (27) * mn(p, 0, 4, 2, 0, 1, 5, 2))))) + ((((-216) * mn(p, 0, 3, 3, 3, 0, 3, 0) + (216) * mn(p, 0, 3, 3, 2, 2, 2, 0)) + ((324) * mn(p, 0, 3, 3, 2, 0, 4, 1) + ((-36) * mn(p, 0, 3, 3, 1, 4, 1, 0) + (-270) * mn(p, 0, 3, 3, 1, 2, 3, 1)))) + (((-162) * mn(p, 0, 3, 3, 1, 0, 5, 2) + (1) * mn(p, 0, 3, 3, 0, 6, 0, 0)) + ((27) * mn(p, 0, 3, 3, 0, 4, 2, 1) + ((81) * mn(p, 0, 3, 3, 0, 2, 4, 2) + (27) * mn(p, 0, 3, 3, 0, 0, 6, 3)))))) + (((((-324) * mn(p, 0, 2, 4, 3, 1, 2, 0) + (135) * mn(p, 0, 2, 4, 2, 3, 1, 0)) + ((648) * mn(p, 0, 2, 4, 2, 1, 3, 1) + ((-9) * mn(p, 0, 2, 4, 1, 5, 0, 0) + (-216) * mn(p, 0, 2, 4, 1, 3, 2, 1)))) + (((-405) * mn(p, 0, 2, 4, 1, 1, 4, 2) + (9) * mn(p, 0, 2, 4, 0, 5, 1, 1)) + ((81) * mn(p, 0, 2, 4, 0, 3, 3, 2) + ((81) * mn(p, 0, 2, 4, 0, 1, 5, 3) + (-162) * mn(p, 0, 1, 5, 3, 2, 1, 0))))) + ((((27) * mn(p, 0, 1, 5, 2, 4, 0, 0) + (405) * mn(p, 0, 1, 5, 2, 2, 2, 1)) + ((-54) * mn(p, 0, 1, 5, 1, 4, 1, 1) + ((-324) * mn(p, 0, 1, 5, 1, 2, 3, 2) + (27) * mn(p, 0, 1, 5, 0, 4, 2, 2)))) + (((81) * mn(p, 0, 1, 5, 0, 2, 4, 3) + (-27) * mn(p, 0, 0, 6, 3, 3, 0, 0)) + ((81) * mn(p, 0, 0, 6, 2, 3, 1, 1) + ((-81) * mn(p, 0, 0, 6, 1, 3, 2, 2) + (27) * mn(p, 0, 0, 6, 0, 3, 3, 3))))))))), (1) * mn(p, 0, 0, 0, 0, 0, 0, 1));
}

#[verifier::rlimit(100)]
proof fn acb_prod21_c0(p: Pt)
    ensures
        (((((((27) * mn(p, 6, 0, 0, 3, 3, 0, 0) + (81) * mn(p, 5, 1, 0, 4, 2, 0, 0)) + ((-81) * mn(p, 5, 1, 0, 2, 2, 2, 0) + (-162) * mn(p, 5, 0, 1, 2, 3, 1, 0))) + (((81) * mn(p, 4, 2, 0, 5, 1, 0, 0) + (-162) * mn(p, 4, 2, 0, 3, 1, 2, 0)) + ((27) * mn(p, 4, 2, 0, 2, 3, 1, 0) + (81) * mn(p, 4, 2, 0, 1, 1, 4, 0)))) + ((((-486) * mn(p, 4, 1, 1, 3, 2, 1, 0) + (27) * mn(p, 4, 1, 1, 2, 4, 0, 0)) + ((81) * mn(p, 4, 1, 1, 2, 2, 2, 1) + (324) * mn(p, 4, 1, 1, 1, 2, 3, 0))) + (((-81) * mn(p, 4, 0, 2, 3, 3, 0, 0) + (81) * mn(p, 4, 0, 2, 2, 3, 1, 1)) + ((324) * mn(p, 4, 0, 2, 1, 3, 2, 0) + (27) * mn(p, 3, 3, 0, 6, 0, 0, 0))))) + (((((-81) * mn(p, 3, 3, 0, 4, 0, 2, 0) + (54) * mn(p, 3, 3, 0, 3, 2, 1, 0)) + ((81) * mn(p, 3, 3, 0, 2, 0, 4, 0) + (-54) * mn(p, 3, 3, 0, 1, 2, 3, 0))) + (((-27) * mn(p, 3, 3, 0, 0, 0, 6, 0) + (-486) * mn(p, 3, 2, 1, 4, 1, 1, 0)) + ((54) * mn(p, 3, 2, 1, 3, 3, 0, 0) + (162) * mn(p, 3, 2, 1, 3, 1, 2, 1)))) + ((((648) * mn(p, 3, 2, 1, 2, 1, 3, 0) + (-162) * mn(p, 3, 2, 1, 1, 3, 2, 0)) + ((-162) * mn(p, 3, 2, 1, 1, 1, 4, 1) + (-162) * mn(p, 3, 2, 1, 0, 1, 5, 0))) + (((-162) * mn(p, 3, 1, 2, 4, 2, 0, 0) + (162) * mn(p, 3, 1, 2, 3, 2, 1, 1)) + ((1134) * mn(p, 3, 1, 2, 2, 2, 2, 0) + (-108) * mn(p, 3, 1, 2, 1, 4, 1, 0))))))) * ((1) * mn(p, 0, 0, 0, 0, 0, 0, 1)) == ((((((27) * mn(p, 6, 0, 0, 3, 3, 0, 1) + (81) * mn(p, 5, 1, 0, 4, 2, 0, 1)) + ((-81) * mn(p, 5, 1, 0, 2, 2, 2, 1) + (-162) * mn(p, 5, 0, 1, 2, 3, 1, 1))) + (((81) * mn(p, 4, 2, 0, 5, 1, 0, 1) + (-162) * mn(p, 4, 2, 0, 3, 1, 2, 1)) + ((27) * mn(p, 4, 2, 0, 2, 3, 1, 1) + (81) * mn(p, 4, 2, 0, 1, 1, 4, 1)))) + ((((-486) * mn(p, 4, 1, 1, 3, 2, 1, 1) + (27) * mn(p, 4, 1, 1, 2, 4, 0, 1)) + ((81) * mn(p, 4, 1, 1, 2, 2, 2, 2) + (324) * mn(p, 4, 1, 1, 1, 2, 3, 1))) + (((-81) * mn(p, 4, 0, 2, 3, 3, 0, 1) + (81) * mn(p, 4, 0, 2, 2, 3, 1, 2)) + ((324) * mn(p, 4, 0, 2, 1, 3, 2, 1) + (27) * mn(p, 3, 3, 0, 6, 0, 0, 1))))) + (((((-81) * mn(p, 3, 3, 0, 4, 0, 2, 1) + (54) * mn(p, 3, 3, 0, 3, 2, 1, 1)) + ((81) * mn(p, 3, 3, 0, 2, 0, 4, 1) + (-54) * mn(p, 3, 3, 0, 1, 2, 3, 1))) + (((-27) * mn(p, 3, 3, 0, 0, 0, 6, 1) + (-486) * mn(p, 3, 2, 1, 4, 1, 1, 1)) + ((54) * mn(p, 3, 2, 1, 3, 3, 0, 1) + (162) * mn(p, 3, 2, 1, 3, 1, 2, 2)))) + ((((648) * mn(p, 3, 2, 1, 2, 1, 3, 1) + (-162) * mn(p, 3, 2, 1, 1, 3, 2, 1)) + ((-162) * mn(p, 3, 2, 1, 1, 1, 4, 2) + (-162) * mn(p, 3, 2, 1, 0, 1, 5, 1))) + (((-162) * mn(p, 3, 1, 2, 4, 2, 0, 1) + (162) * mn(p, 3, 1, 2, 3, 2, 1, 2)) + ((1134) * mn(p, 3, 1, 2, 2, 2, 2, 1) + (-108) * mn(p, 3, 1, 2, 1, 4, 1, 1)))))),
{
    let t0 = (27) * mn(p, 6, 0, 0, 3, 3, 0, 0);
    let t1 = (81) * mn(p, 5, 1, 0, 4, 2, 0, 0);
    let t2 = (-81) * mn(p, 5, 1, 0, 2, 2, 2, 0);
    let t3 = (-162) * mn(p, 5, 0, 1, 2, 3, 1, 0);
    let t4 = (81) * mn(p, 4, 2, 0, 5, 1, 0, 0);
    let t5 = (-162) * mn(p, 4, 2, 0, 3, 1, 2, 0);
    let t6 = (27) * mn(p, 4, 2, 0, 2, 3, 1, 0);
    let t7 = (81) * mn(p, 4, 2, 0, 1, 1, 4, 0);
    let t8 = (-486) * mn(p, 4, 1, 1, 3, 2, 1, 0);
    let t9 = (27) * mn(p, 4, 1, 1, 2, 4, 0, 0);
    let t10 = (81) * mn(p, 4, 1, 1, 2, 2, 2, 1);
    let t11 = (324) * mn(p, 4, 1, 1, 1, 2, 3, 0);
    let t12 = (-81) * mn(p, 4, 0, 2, 3, 3, 0, 0);
    let t13 = (81) * mn(p, 4, 0, 2, 2, 3, 1, 1);
    let t14 = (324) * mn(p, 4, 0, 2, 1, 3, 2, 0);
    let t15 = (27) * mn(p, 3, 3, 0, 6, 0, 0, 0);
    let t16 = (-81) * mn(p, 3, 3, 0, 4, 0, 2, 0);
    let t17 = (54) * mn(p, 3, 3, 0, 3, 2, 1, 0);
    let t18 = (81) * mn(p, 3, 3, 0, 2, 0, 4, 0);
    let t19 = (-54) * mn(p, 3, 3, 0, 1, 2, 3, 0);
    let t20 = (-27) * mn(p, 3, 3, 0, 0, 0, 6, 0);
    let t21 = (-486) * mn(p, 3, 2, 1, 4, 1, 1, 0);
    let t22 = (54) * mn(p, 3, 2, 1, 3, 3, 0, 0);
    let t23 = (162) * mn(p, 3, 2, 1, 3, 1, 2, 1);
    let t24 = (648) * mn(p, 3, 2, 1, 2, 1, 3, 0);
    let t25 = (-162) * mn(p, 3, 2, 1, 1, 3, 2, 0);
    let t26 = (-162) * mn(p, 3, 2, 1, 1, 1, 4, 1);
    let t27 = (-162) * mn(p, 3, 2, 1, 0, 1, 5, 0);
    let t28 = (-162) * mn(p, 3, 1, 2, 4, 2, 0, 0);
    let t29 = (162) * mn(p, 3, 1, 2, 3, 2, 1, 1);
    let t30 = (1134) * mn(p, 3, 1, 2, 2, 2, 2, 0);
    let t31 = (-108) * mn(p, 3, 1, 2, 1, 4, 1, 0);
    let s0 = (1) * mn(p, 0, 0, 0, 0, 0, 0, 1);
    let pp0 = t0;
    let pp1 = pp0 + t1;
    let pp2 = pp1 + t2;
    let pp3 = pp2 + t3;
    let pp4 = pp3 + t4;
    let pp5 = pp4 + t5;
    let pp6 = pp5 + t6;
    let pp7 = pp6 + t7;
    let pp8 = pp7 + t8;
    let pp9 = pp8 + t9;
    let pp10 = pp9 + t10;
    let pp11 = pp10 + t11;
    let pp12 = pp11 + t12;
    let pp13 = pp12 + t13;
    let pp14 = pp13 + t14;
    let pp15 = pp14 + t15;
    let pp16 = pp15 + t16;
    let pp17 = pp16 + t17;
    let pp18 = pp17 + t18;
    let pp19 = pp18 + t19;
    let pp20 = pp19 + t20;
    let pp21 = pp20 + t21;
    let pp22 = pp21 + t22;
    let pp23 = pp22 + t23;
    let pp24 = pp23 + t24;
    let pp25 = pp24 + t25;
    let pp26 = pp25 + t26;
    let pp27 = pp26 + t27;
    let pp28 = pp27 + t28;
    let pp29 = pp28 + t29;
    let pp30 = pp29 + t30;
    let pp31 = pp30 + t31;
    let qq0 = s0;
    let q = qq0;
    lemma_mul_is_distributive_add_other_way(q, pp0, t1);
    lemma_mul_is_distributive_add_other_way(q, pp1, t2);
    lemma_mul_is_distributive_add_other_way(q, pp2, t3);
    lemma_mul_is_distributive_add_other_way(q, pp3, t4);
    lemma_mul_is_distributive_add_other_way(q, pp4, t5);
    lemma_mul_is_distributive_add_other_way(q, pp5, t6);
    lemma_mul_is_distributive_add_other_way(q, pp6, t7);
    lemma_mul_is_distributive_add_other_way(q, pp7, t8);
    lemma_mul_is_distributive_add_other_way(q, pp8, t9);
    lemma_mul_is_distributive_add_other_way(q, pp9, t10);
    lemma_mul_is_distributive_add_other_way(q, pp10, t11);
    lemma_mul_is_distributive_add_other_way(q, pp11, t12);
    lemma_mul_is_distributive_add_other_way(q, pp12, t13);
    lemma_mul_is_distributive_add_other_way(q, pp13, t14);
    lemma_mul_is_distributive_add_other_way(q, pp14, t15);
    lemma_mul_is_distributive_add_other_way(q, pp15, t16);
    lemma_mul_is_distributive_add_other_way(q, pp16, t17);
    lemma_mul_is_distributive_add_other_way(q, pp17, t18);
    lemma_mul_is_distributive_add_other_way(q, pp18, t19);
    lemma_mul_is_distributive_add_other_way(q, pp19, t20);
    lemma_mul_is_distributive_add_other_way(q, pp20, t21);
    lemma_mul_is_distributive_add_other_way(q, pp21, t22);
    lemma_mul_is_distributive_add_other_way(q, pp22, t23);
    lemma_mul_is_distributive_add_other_way(q, pp23, t24);
    lemma_mul_is_distributive_add_other_way(q, pp24, t25);
    lemma_mul_is_distributive_add_other_way(q, pp25, t26);
    lemma_mul_is_distributive_add_other_way(q, pp26, t27);
    lemma_mul_is_distributive_add_other_way(q, pp27, t28);
    lemma_mul_is_distributive_add_other_way(q, pp28, t29);
    lemma_mul_is_distributive_add_other_way(q, pp29, t30);
    lemma_mul_is_distributive_add_other_way(q, pp30, t31);
    lemma_tm(p, 27, 6, 0, 0, 3, 3, 0, 0, 1, 0, 0, 0, 0, 0, 0, 1);
    assert(t0 * s0 == (27) * mn(p, 6, 0, 0, 3, 3, 0, 1));
    assert(t0 * q == (27) * mn(p, 6, 0, 0, 3, 3, 0, 1));
    lemma_tm(p, 81, 5, 1, 0, 4, 2, 0, 0, 1, 0, 0, 0, 0, 0, 0, 1);
    assert(t1 * s0 == (81) * mn(p, 5, 1, 0, 4, 2, 0, 1));
    assert(t1 * q == (81) * mn(p, 5, 1, 0, 4, 2, 0, 1));
    lemma_tm(p, -81, 5, 1, 0, 2, 2, 2, 0, 1, 0, 0, 0, 0, 0, 0, 1);
    assert(t2 * s0 == (-81) * mn(p, 5, 1, 0, 2, 2, 2, 1));
    assert(t2 * q == (-81) * mn(p, 5, 1, 0, 2, 2, 2, 1));
    lemma_tm(p, -162, 5, 0, 1, 2, 3, 1, 0, 1, 0, 0, 0, 0, 0, 0, 1);
    assert(t3 * s0 == (-162) * mn(p, 5, 0, 1, 2, 3, 1, 1));
    assert(t3 * q == (-162) * mn(p, 5, 0, 1, 2, 3, 1, 1));
    lemma_tm(p, 81, 4, 2, 0, 5, 1, 0, 0, 1, 0, 0, 0, 0, 0, 0, 1);
    assert(t4 * s0 == (81) * mn(p, 4, 2, 0, 5, 1, 0, 1));
    assert(t4 * q == (81) * mn(p, 4, 2, 0, 5, 1, 0, 1));
    lemma_tm(p, -162, 4, 2, 0, 3, 1, 2, 0, 1, 0, 0, 0, 0, 0, 0, 1);
    assert(t5 * s0 == (-162) * mn(p, 4, 2, 0, 3, 1, 2, 1));
    assert(t5 * q == (-162) * mn(p, 4, 2, 0, 3, 1, 2, 1));
    lemma_tm(p, 27, 4, 2, 0, 2, 3, 1, 0, 1, 0, 0, 0, 0, 0, 0, 1);
    assert(t6 * s0 == (27) * mn(p, 4, 2, 0, 2, 3, 1, 1));
    assert(t6 * q == (27) * mn(p, 4, 2, 0, 2, 3, 1, 1));
    lemma_tm(p, 81, 4, 2, 0, 1, 1, 4, 0, 1, 0, 0, 0, 0, 0, 0, 1);
    assert(t7 * s0 == (81) * mn(p, 4, 2, 0, 1, 1, 4, 1));
    assert(t7 * q == (81) * mn(p, 4, 2, 0, 1, 1, 4, 1));
    lemma_tm(p, -486, 4, 1, 1, 3, 2, 1, 0, 1, 0, 0, 0, 0, 0, 0, 1);
    assert(t8 * s0 == (-486) * mn(p, 4, 1, 1, 3, 2, 1, 1));
    assert(t8 * q == (-486) * mn(p, 4, 1, 1, 3, 2, 1, 1));
    lemma_tm(p, 27, 4, 1, 1, 2, 4, 0, 0, 1, 0, 0, 0, 0, 0, 0, 1);
    assert(t9 * s0 == (27) * mn(p, 4, 1, 1, 2, 4, 0, 1));
    assert(t9 * q == (27) * mn(p, 4, 1, 1, 2, 4, 0, 1));
    lemma_tm(p, 81, 4, 1, 1, 2, 2, 2, 1, 1, 0, 0, 0, 0, 0, 0, 1);
    assert(t10 * s0 == (81) * mn(p, 4, 1, 1, 2, 2, 2, 2));
    assert(t10 * q == (81) * mn(p, 4, 1, 1, 2, 2, 2, 2));
    lemma_tm(p, 324, 4, 1, 1, 1, 2, 3, 0, 1, 0, 0, 0, 0, 0, 0, 1);
    assert(t11 * s0 == (324) * mn(p, 4, 1, 1, 1, 2, 3, 1));
    assert(t11 * q == (324) * mn(p, 4, 1, 1, 1, 2, 3, 1));
    lemma_tm(p, -81, 4, 0, 2, 3, 3, 0, 0, 1, 0, 0, 0, 0, 0, 0, 1);
    assert(t12 * s0 == (-81) * mn(p, 4, 0, 2, 3, 3, 0, 1));
    assert(t12 * q == (-81) * mn(p, 4, 0, 2, 3, 3, 0, 1));
    lemma_tm(p, 81, 4, 0, 2, 2, 3, 1, 1, 1, 0, 0, 0, 0, 0, 0, 1);
    assert(t13 * s0 == (81) * mn(p, 4, 0, 2, 2, 3, 1, 2));
    assert(t13 * q == (81) * mn(p, 4, 0, 2, 2, 3, 1, 2));
    lemma_tm(p, 324, 4, 0, 2, 1, 3, 2, 0, 1, 0, 0, 0, 0, 0, 0, 1);
    assert(t14 * s0 == (324) * mn(p, 4, 0, 2, 1, 3, 2, 1));
    assert(t14 * q == (324) * mn(p, 4, 0, 2, 1, 3, 2, 1));
    lemma_tm(p, 27, 3, 3, 0, 6, 0, 0, 0, 1, 0, 0, 0, 0, 0, 0, 1);
    assert(t15 * s0 == (27) * mn(p, 3, 3, 0, 6, 0, 0, 1));
    assert(t15 * q == (27) * mn(p, 3, 3, 0, 6, 0, 0, 1));
    lemma_tm(p, -81, 3, 3, 0, 4, 0, 2, 0, 1, 0, 0, 0, 0, 0, 0, 1);
    assert(t16 * s0 == (-81) * mn(p, 3, 3, 0, 4, 0, 2, 1));
    assert(t16 * q == (-81) * mn(p, 3, 3, 0, 4, 0, 2, 1));
    lemma_tm(p, 54, 3, 3, 0, 3, 2, 1, 0, 1, 0, 0, 0, 0, 0, 0, 1);
    assert(t17 * s0 == (54) * mn(p, 3, 3, 0, 3, 2, 1, 1));
    assert(t17 * q == (54) * mn(p, 3, 3, 0, 3, 2, 1, 1));
    lemma_tm(p, 81, 3, 3, 0, 2, 0, 4, 0, 1, 0, 0, 0, 0, 0, 0, 1);
    assert(t18 * s0 == (81) * mn(p, 3, 3, 0, 2, 0, 4, 1));
    assert(t18 * q == (81) * mn(p, 3, 3, 0, 2, 0, 4, 1));
    lemma_tm(p, -54, 3, 3, 0, 1, 2, 3, 0, 1, 0, 0, 0, 0, 0, 0, 1);
    assert(t19 * s0 == (-54) * mn(p, 3, 3, 0, 1, 2, 3, 1));
    assert(t19 * q == (-54) * mn(p, 3, 3, 0, 1, 2, 3, 1));
    lemma_tm(p, -27, 3, 3, 0, 0, 0, 6, 0, 1, 0, 0, 0, 0, 0, 0, 1);
    assert(t20 * s0 == (-27) * mn(p, 3, 3, 0, 0, 0, 6, 1));
    assert(t20 * q == (-27) * mn(p, 3, 3, 0, 0, 0, 6, 1));
    lemma_tm(p, -486, 3, 2, 1, 4, 1, 1, 0, 1, 0, 0, 0, 0, 0, 0, 1);
    assert(t21 * s0 == (-486) * mn(p, 3, 2, 1, 4, 1, 1, 1));
    assert(t21 * q == (-486) * mn(p, 3, 2, 1, 4, 1, 1, 1));
    lemma_tm(p, 54, 3, 2, 1, 3, 3, 0, 0, 1, 0, 0, 0, 0, 0, 0, 1);
    assert(t22 * s0 == (54) * mn(p, 3, 2, 1, 3, 3, 0, 1));
    assert(t22 * q == (54) * mn(p, 3, 2, 1, 3, 3, 0, 1));
    lemma_tm(p, 162, 3, 2, 1, 3, 1, 2, 1, 1, 0, 0, 0, 0, 0, 0, 1);
    assert(t23 * s0 == (162) * mn(p, 3, 2, 1, 3, 1, 2, 2));
    assert(t23 * q == (162) * mn(p, 3, 2, 1, 3, 1, 2, 2));
    lemma_tm(p, 648, 3, 2, 1, 2, 1, 3, 0, 1, 0, 0, 0, 0, 0, 0, 1);
    assert(t24 * s0 == (648) * mn(p, 3, 2, 1, 2, 1, 3, 1));
    assert(t24 * q == (648) * mn(p, 3, 2, 1, 2, 1, 3, 1));
    lemma_tm(p, -162, 3, 2, 1, 1, 3, 2, 0, 1, 0, 0, 0, 0, 0, 0, 1);
    assert(t25 * s0 == (-162) * mn(p, 3, 2, 1, 1, 3, 2, 1));
    assert(t25 * q == (-162) * mn(p, 3, 2, 1, 1, 3, 2, 1));
    lemma_tm(p, -162, 3, 2, 1, 1, 1, 4, 1, 1, 0, 0, 0, 0, 0, 0, 1);
    assert(t26 * s0 == (-162) * mn(p, 3, 2, 1, 1, 1, 4, 2));
    assert(t26 * q == (-162) * mn(p, 3, 2, 1, 1, 1, 4, 2));
    lemma_tm(p, -162, 3, 2, 1, 0, 1, 5, 0, 1, 0, 0, 0, 0, 0, 0, 1);
    assert(t27 * s0 == (-162) * mn(p, 3, 2, 1, 0, 1, 5, 1));
    assert(t27 * q == (-162) * mn(p, 3, 2, 1, 0, 1, 5, 1));
    lemma_tm(p, -162, 3, 1, 2, 4, 2, 0, 0, 1, 0, 0, 0, 0, 0, 0, 1);
    assert(t28 * s0 == (-162) * mn(p, 3, 1, 2, 4, 2, 0, 1));
    assert(t28 * q == (-162) * mn(p, 3, 1, 2, 4, 2, 0, 1));
    lemma_tm(p, 162, 3, 1, 2, 3, 2, 1, 1, 1, 0, 0, 0, 0, 0, 0, 1);
    assert(t29 * s0 == (162) * mn(p, 3, 1, 2, 3, 2, 1, 2));
    assert(t29 * q == (162) * mn(p, 3, 1, 2, 3, 2, 1, 2));
    lemma_tm(p, 1134, 3, 1, 2, 2, 2, 2, 0, 1, 0, 0, 0, 0, 0, 0, 1);
    assert(t30 * s0 == (1134) * mn(p, 3, 1, 2, 2, 2, 2, 1));
    assert(t30 * q == (1134) * mn(p, 3, 1, 2, 2, 2, 2, 1));
    lemma_tm(p, -108, 3, 1, 2, 1, 4, 1, 0, 1, 0, 0, 0, 0, 0, 0, 1);
    assert(t31 * s0 == (-108) * mn(p, 3, 1, 2, 1, 4, 1, 1));
    assert(t31 * q == (-108) * mn(p, 3, 1, 2, 1, 4, 1, 1));
    assert(pp31 * q == ((((((27) * mn(p, 6, 0, 0, 3, 3, 0, 1) + (81) * mn(p, 5, 1, 0, 4, 2, 0, 1)) + ((-81) * mn(p, 5, 1, 0, 2, 2, 2, 1) + (-162) * mn(p, 5, 0, 1, 2, 3, 1, 1))) + (((81) * mn(p, 4, 2, 0, 5, 1, 0, 1) + (-162) * mn(p, 4, 2, 0, 3, 1, 2, 1)) + ((27) * mn(p, 4, 2, 0, 2, 3, 1, 1) + (81) * mn(p, 4, 2, 0, 1, 1, 4, 1)))) + ((((-486) * mn(p, 4, 1, 1, 3, 2, 1, 1) + (27) * mn(p, 4, 1, 1, 2, 4, 0, 1)) + ((81) * mn(p, 4, 1, 1, 2, 2, 2, 2) + (324) * mn(p, 4, 1, 1, 1, 2, 3, 1))) + (((-81) * mn(p, 4, 0, 2, 3, 3, 0, 1) + (81) * mn(p, 4, 0, 2, 2, 3, 1, 2)) + ((324) * mn(p, 4, 0, 2, 1, 3, 2, 1) + (27) * mn(p, 3, 3, 0, 6, 0, 0, 1))))) + (((((-81) * mn(p, 3, 3, 0, 4, 0, 2, 1) + (54) * mn(p, 3, 3, 0, 3, 2, 1, 1)) + ((81) * mn(p, 3, 3, 0, 2, 0, 4, 1) + (-54) * mn(p, 3, 3, 0, 1, 2, 3, 1))) + (((-27) * mn(p, 3, 3, 0, 0, 0, 6, 1) + (-486) * mn(p, 3, 2, 1, 4, 1, 1, 1)) + ((54) * mn(p, 3, 2, 1, 3, 3, 0, 1) + (162) * mn(p, 3, 2, 1, 3, 1, 2, 2)))) + ((((648) * mn(p, 3, 2, 1, 2, 1, 3, 1) + (-162) * mn(p, 3, 2, 1, 1, 3, 2, 1)) + ((-162) * mn(p, 3, 2, 1, 1, 1, 4, 2) + (-162) * mn(p, 3, 2, 1, 0, 1, 5, 1))) + (((-162) * mn(p, 3, 1, 2, 4, 2, 0, 1) + (162) * mn(p, 3, 1, 2, 3, 2, 1, 2)) + ((1134) * mn(p, 3, 1, 2, 2, 2, 2, 1) + (-108) * mn(p, 3, 1, 2, 1, 4, 1, 1)))))));
    assert(pp31 == ((((((27) * mn(p, 6, 0, 0, 3, 3, 0, 0) + (81) * mn(p, 5, 1, 0, 4, 2, 0, 0)) + ((-81) * mn(p, 5, 1, 0, 2, 2, 2, 0) + (-162) * mn(p, 5, 0, 1, 2, 3, 1, 0))) + (((81) * mn(p, 4, 2, 0, 5, 1, 0, 0) + (-162) * mn(p, 4, 2, 0, 3, 1, 2, 0)) + ((27) * mn(p, 4, 2, 0, 2, 3, 1, 0) + (81) * mn(p, 4, 2, 0, 1, 1, 4, 0)))) + ((((-486) * mn(p, 4, 1, 1, 3, 2, 1, 0) + (27) * mn(p, 4, 1, 1, 2, 4, 0, 0)) + ((81) * mn(p, 4, 1, 1, 2, 2, 2, 1) + (324) * mn(p, 4, 1, 1, 1, 2, 3, 0))) + (((-81) * mn(p, 4, 0, 2, 3, 3, 0, 0) + (81) * mn(p, 4, 0, 2, 2, 3, 1, 1)) + ((324) * mn(p, 4, 0, 2, 1, 3, 2, 0) + (27) * mn(p, 3, 3, 0, 6, 0, 0, 0))))) + (((((-81) * mn(p, 3, 3, 0, 4, 0, 2, 0) + (54) * mn(p, 3, 3, 0, 3, 2, 1, 0)) + ((81) * mn(p, 3, 3, 0, 2, 0, 4, 0) + (-54) * mn(p, 3, 3, 0, 1, 2, 3, 0))) + (((-27) * mn(p, 3, 3, 0, 0, 0, 6, 0) + (-486) * mn(p, 3, 2, 1, 4, 1, 1, 0)) + ((54) * mn(p, 3, 2, 1, 3, 3, 0, 0) + (162) * mn(p, 3, 2, 1, 3, 1, 2, 1)))) + ((((648) * mn(p, 3, 2, 1, 2, 1, 3, 0) + (-162) * mn(p, 3, 2, 1, 1, 3, 2, 0)) + ((-162) * mn(p, 3, 2, 1, 1, 1, 4, 1) + (-162) * mn(p, 3, 2, 1, 0, 1, 5, 0))) + (((-162) * mn(p, 3, 1, 2, 4, 2, 0, 0) + (162) * mn(p, 3, 1, 2, 3, 2, 1, 1)) + ((1134) * mn(p, 3, 1, 2, 2, 2, 2, 0) + (-108) * mn(p, 3, 1, 2, 1, 4, 1, 0)))))));
    assert(q == (1) * mn(p, 0, 0, 0, 0, 0, 0, 1));
}

#[verifier::rlimit(100)]
proof fn acb_prod21_c1(p: Pt)
    ensures
        (((((((-486) * mn(p, 3, 1, 2, 1, 2, 3, 1) + (-324) * mn(p, 3, 1, 2, 0, 2, 4, 0)) + ((324) * mn(p, 3, 0, 3, 2, 3, 1, 0) + (-324) * mn(p, 3, 0, 3, 1, 3, 2, 1))) + (((-216) * mn(p, 3, 0, 3, 0, 3, 3, 0) + (27) * mn(p, 2, 4, 0, 4, 1, 1, 0)) + ((-54) * mn(p, 2, 4, 0, 2, 1, 3, 0) + (9) * mn(p, 2, 4, 0, 1, 3, 2, 0)))) + ((((27) * mn(p, 2, 4, 0, 0, 1, 5, 0) + (-162) * mn(p, 2, 3, 1, 5, 0, 1, 0)) + ((27) * mn(p, 2, 3, 1, 4, 2, 0, 0) + (81) * mn(p, 2, 3, 1, 4, 0, 2, 1))) + (((324) * mn(p, 2, 3, 1, 3, 0, 3, 0) + (-270) * mn(p, 2, 3, 1, 2, 2, 2, 0)) + ((-162) * mn(p, 2, 3, 1, 2, 0, 4, 1) + (18) * mn(p, 2, 3, 1, 1, 4, 1, 0))))) + (((((54) * mn(p, 2, 3, 1, 1, 2, 3, 1) + (-162) * mn(p, 2, 3, 1, 1, 0, 5, 0)) + ((135) * mn(p, 2, 3, 1, 0, 2, 4, 0) + (81) * mn(p, 2, 3, 1, 0, 0, 6, 1))) + (((-81) * mn(p, 2, 2, 2, 5, 1, 0, 0) + (81) * mn(p, 2, 2, 2, 4, 1, 1, 1)) + ((1134) * mn(p, 2, 2, 2, 3, 1, 2, 0) + (-270) * mn(p, 2, 2, 2, 2, 3, 1, 0)))) + ((((-810) * mn(p, 2, 2, 2, 2, 1, 3, 1) + (9) * mn(p, 2, 2, 2, 1, 5, 0, 0)) + ((108) * mn(p, 2, 2, 2, 1, 3, 2, 1) + (81) * mn(p, 2, 2, 2, 1, 1, 4, 2))) + (((-729) * mn(p, 2, 2, 2, 1, 1, 4, 0) + (216) * mn(p, 2, 2, 2, 0, 3, 3, 0)) + ((405) * mn(p, 2, 2, 2, 0, 1, 5, 1) + (648) * mn(p, 2, 1, 3, 3, 2, 1, 0))))))) * ((1) * mn(p, 0, 0, 0, 0, 0, 0, 1)) == ((((((-486) * mn(p, 3, 1, 2, 1, 2, 3, 2) + (-324) * mn(p, 3, 1, 2, 0, 2, 4, 1)) + ((324) * mn(p, 3, 0, 3, 2, 3, 1, 1) + (-324) * mn(p, 3, 0, 3, 1, 3, 2, 2))) + (((-216) * mn(p, 3, 0, 3, 0, 3, 3, 1) + (27) * mn(p, 2, 4, 0, 4, 1, 1, 1)) + ((-54) * mn(p, 2, 4, 0, 2, 1, 3, 1) + (9) * mn(p, 2, 4, 0, 1, 3, 2, 1)))) + ((((27) * mn(p, 2, 4, 0, 0, 1, 5, 1) + (-162) * mn(p, 2, 3, 1, 5, 0, 1, 1)) + ((27) * mn(p, 2, 3, 1, 4, 2, 0, 1) + (81) * mn(p, 2, 3, 1, 4, 0, 2, 2))) + (((324) * mn(p, 2, 3, 1, 3, 0, 3, 1) + (-270) * mn(p, 2, 3, 1, 2, 2, 2, 1)) + ((-162) * mn(p, 2, 3, 1, 2, 0, 4, 2) + (18) * mn(p, 2, 3, 1, 1, 4, 1, 1))))) + (((((54) * mn(p, 2, 3, 1, 1, 2, 3, 2) + (-162) * mn(p, 2, 3, 1, 1, 0, 5, 1)) + ((135) * mn(p, 2, 3, 1, 0, 2, 4, 1) + (81) * mn(p, 2, 3, 1, 0, 0, 6, 2))) + (((-81) * mn(p, 2, 2, 2, 5, 1, 0, 1) + (81) * mn(p, 2, 2, 2, 4, 1, 1, 2)) + ((1134) * mn(p, 2, 2, 2, 3, 1, 2, 1) + (-270) * mn(p, 2, 2, 2, 2, 3, 1, 1)))) + ((((-810) * mn(p, 2, 2, 2, 2, 1, 3, 2) + (9) * mn(p, 2, 2, 2, 1, 5, 0, 1)) + ((108) * mn(p, 2, 2, 2, 1, 3, 2, 2) + (81) * mn(p, 2, 2, 2, 1, 1, 4, 3))) + (((-729) * mn(p, 2, 2, 2, 1, 1, 4, 1) + (216) * mn(p, 2, 2, 2, 0, 3, 3, 1)) + ((405) * mn(p, 2, 2, 2, 0, 1, 5, 2) + (648) * mn(p, 2, 1, 3, 3, 2, 1, 1)))))),
{
    let t0 = (-486) * mn(p, 3, 1, 2, 1, 2, 3, 1);
    let t1 = (-324) * mn(p, 3, 1, 2, 0, 2, 4, 0);
    let t2 = (324) * mn(p, 3, 0, 3, 2, 3, 1, 0);
    let t3 = (-324) * mn(p, 3, 0, 3, 1, 3, 2, 1);
    let t4 = (-216) * mn(p, 3, 0, 3, 0, 3, 3, 0);
    let t5 = (27) * mn(p, 2, 4, 0, 4, 1, 1, 0);
    let t6 = (-54) * mn(p, 2, 4, 0, 2, 1, 3, 0);
    let t7 = (9) * mn(p, 2, 4, 0, 1, 3, 2, 0);
    let t8 = (27) * mn(p, 2, 4, 0, 0, 1, 5, 0);
    let t9 = (-162) * mn(p, 2, 3, 1, 5, 0, 1, 0);
    let t10 = (27) * mn(p, 2, 3, 1, 4, 2, 0, 0);
    let t11 = (81) * mn(p, 2, 3, 1, 4, 0, 2, 1);
    let t12 = (324) * mn(p, 2, 3, 1, 3, 0, 3, 0);
    let t13 = (-270) * mn(p, 2, 3, 1, 2, 2, 2, 0);
    let t14 = (-162) * mn(p, 2, 3, 1, 2, 0, 4, 1);
    let t15 = (18) * mn(p, 2, 3, 1, 1, 4, 1, 0);
    let t16 = (54) * mn(p, 2, 3, 1, 1, 2, 3, 1);
    let t17 = (-162) * mn(p, 2, 3, 1, 1, 0, 5, 0);
    let t18 = (135) * mn(p, 2, 3, 1, 0, 2, 4, 0);
    let t19 = (81) * mn(p, 2, 3, 1, 0, 0, 6, 1);
    let t20 = (-81) * mn(p, 2, 2, 2, 5, 1, 0, 0);
    let t21 = (81) * mn(p, 2, 2, 2, 4, 1, 1, 1);
    let t22 = (1134) * mn(p, 2, 2, 2, 3, 1, 2, 0);
    let t23 = (-270) * mn(p, 2, 2, 2, 2, 3, 1, 0);
    let t24 = (-810) * mn(p, 2, 2, 2, 2, 1, 3, 1);
    let t25 = (9) * mn(p, 2, 2, 2, 1, 5, 0, 0);
    let t26 = (108) * mn(p, 2, 2, 2, 1, 3, 2, 1);
    let t27 = (81) * mn(p, 2, 2, 2, 1, 1, 4, 2);
    let t28 = (-729) * mn(p, 2, 2, 2, 1, 1, 4, 0);
    let t29 = (216) * mn(p, 2, 2, 2, 0, 3, 3, 0);
    let t30 = (405) * mn(p, 2, 2, 2, 0, 1, 5, 1);
    let t31 = (648) * mn(p, 2, 1, 3, 3, 2, 1, 0);
    let s0 = (1) * mn(p, 0, 0, 0, 0, 0, 0, 1);
    let pp0 = t0;
    let pp1 = pp0 + t1;
    let pp2 = pp1 + t2;
    let pp3 = pp2 + t3;
    let pp4 = pp3 + t4;
    let pp5 = pp4 + t5;
    let pp6 = pp5 + t6;
    let pp7 = pp6 + t7;
    let pp8 = pp7 + t8;
    let pp9 = pp8 + t9;
    let pp10 = pp9 + t10;
    let pp11 = pp10 + t11;
    let pp12 = pp11 + t12;
    let pp13 = pp12 + t13;
    let pp14 = pp13 + t14;
    let pp15 = pp14 + t15;
    let pp16 = pp15 + t16;
    let pp17 = pp16 + t17;
    let pp18 = pp17 + t18;
    let pp19 = pp18 + t19;
    let pp20 = pp19 + t20;
    let pp21 = pp20 + t21;
    let pp22 = pp21 + t22;
    let pp23 = pp22 + t23;
    let pp24 = pp23 + t24;
    let pp25 = pp24 + t25;
    let pp26 = pp25 + t26;
    let pp27 = pp26 + t27;
    let pp28 = pp27 + t28;
    let pp29 = pp28 + t29;
    let pp30 = pp29 + t30;
    let pp31 = pp30 + t31;
    let qq0 = s0;
    let q = qq0;
    lemma_mul_is_distributive_add_other_way(q, pp0, t1);
    lemma_mul_is_distributive_add_other_way(q, pp1, t2);
    lemma_mul_is_distributive_add_other_way(q, pp2, t3);
    lemma_mul_is_distributive_add_other_way(q, pp3, t4);
    lemma_mul_is_distributive_add_other_way(q, pp4, t5);
    lemma_mul_is_distributive_add_other_way(q, pp5, t6);
    lemma_mul_is_distributive_add_other_way(q, pp6, t7);
    lemma_mul_is_distributive_add_other_way(q, pp7, t8);
    lemma_mul_is_distributive_add_other_way(q, pp8, t9);
    lemma_mul_is_distributive_add_other_way(q, pp9, t10);
    lemma_mul_is_distributive_add_other_way(q, pp10, t11);
    lemma_mul_is_distributive_add_other_way(q, pp11, t12);
    lemma_mul_is_distributive_add_other_way(q, pp12, t13);
    lemma_mul_is_distributive_add_other_way(q, pp13, t14);
    lemma_mul_is_distributive_add_other_way(q, pp14, t15);
    lemma_mul_is_distributive_add_other_way(q, pp15, t16);
    lemma_mul_is_distributive_add_other_way(q, pp16, t17);
    lemma_mul_is_distributive_add_other_way(q, pp17, t18);
    lemma_mul_is_distributive_add_other_way(q, pp18, t19);
    lemma_mul_is_distributive_add_other_way(q, pp19, t20);
    lemma_mul_is_distributive_add_other_way(q, pp20, t21);
    lemma_mul_is_distributive_add_other_way(q, pp21, t22);
    lemma_mul_is_distributive_add_other_way(q, pp22, t23);
    lemma_mul_is_distributive_add_other_way(q, pp23, t24);
    lemma_mul_is_distributive_add_other_way(q, pp24, t25);
    lemma_mul_is_distributive_add_other_way(q, pp25, t26);
    lemma_mul_is_distributive_add_other_way(q, pp26, t27);
    lemma_mul_is_distributive_add_other_way(q, pp27, t28);
    lemma_mul_is_distributive_add_other_way(q, pp28, t29);
    lemma_mul_is_distributive_add_other_way(q, pp29, t30);
    lemma_mul_is_distributive_add_other_way(q, pp30, t31);
    lemma_tm(p, -486, 3, 1, 2, 1, 2, 3, 1, 1, 0, 0, 0, 0, 0, 0, 1);
    assert(t0 * s0 == (-486) * mn(p, 3, 1, 2, 1, 2, 3, 2));
    assert(t0 * q == (-486) * mn(p, 3, 1, 2, 1, 2, 3, 2));
    lemma_tm(p, -324, 3, 1, 2, 0, 2, 4, 0, 1, 0, 0, 0, 0, 0, 0, 1);
    assert(t1 * s0 == (-324) * mn(p, 3, 1, 2, 0, 2, 4, 1));
    assert(t1 * q == (-324) * mn(p, 3, 1, 2, 0, 2, 4, 1));
    lemma_tm(p, 324, 3, 0, 3, 2, 3, 1, 0, 1, 0, 0, 0, 0, 0, 0, 1);
    assert(t2 * s0 == (324) * mn(p, 3, 0, 3, 2, 3, 1, 1));
    assert(t2 * q == (324) * mn(p, 3, 0, 3, 2, 3, 1, 1));
    lemma_tm(p, -324, 3, 0, 3, 1, 3, 2, 1, 1, 0, 0, 0, 0, 0, 0, 1);
    assert(t3 * s0 == (-324) * mn(p, 3, 0, 3, 1, 3, 2, 2));
    assert(t3 * q == (-324) * mn(p, 3, 0, 3, 1, 3, 2, 2));
    lemma_tm(p, -216, 3, 0, 3, 0, 3, 3, 0, 1, 0, 0, 0, 0, 0, 0, 1);
    assert(t4 * s0 == (-216) * mn(p, 3, 0, 3, 0, 3, 3, 1));
    assert(t4 * q == (-216) * mn(p, 3, 0, 3, 0, 3, 3, 1));
    lemma_tm(p, 27, 2, 4, 0, 4, 1, 1, 0, 1, 0, 0, 0, 0, 0, 0, 1);
    assert(t5 * s0 == (27) * mn(p, 2, 4, 0, 4, 1, 1, 1));
    assert(t5 * q == (27) * mn(p, 2, 4, 0, 4, 1, 1, 1));
    lemma_tm(p, -54, 2, 4, 0, 2, 1, 3, 0, 1, 0, 0, 0, 0, 0, 0, 1);
    assert(t6 * s0 == (-54) * mn(p, 2, 4, 0, 2, 1, 3, 1));
    assert(t6 * q == (-54) * mn(p, 2, 4, 0, 2, 1, 3, 1));
    lemma_tm(p, 9, 2, 4, 0, 1, 3, 2, 0, 1, 0, 0, 0, 0, 0, 0, 1);
    assert(t7 * s0 == (9) * mn(p, 2, 4, 0, 1, 3, 2, 1));
    assert(t7 * q == (9) * mn(p, 2, 4, 0, 1, 3, 2, 1));
    lemma_tm(p, 27, 2, 4, 0, 0, 1, 5, 0, 1, 0, 0, 0, 0, 0, 0, 1);
    assert(t8 * s0 == (27) * mn(p, 2, 4, 0, 0, 1, 5, 1));
    assert(t8 * q == (27) * mn(p, 2, 4, 0, 0, 1, 5, 1));
    lemma_tm(p, -162, 2, 3, 1, 5, 0, 1, 0, 1, 0, 0, 0, 0, 0, 0, 1);
    assert(t9 * s0 == (-162) * mn(p, 2, 3, 1, 5, 0, 1, 1));
    assert(t9 * q == (-162) * mn(p, 2, 3, 1, 5, 0, 1, 1));
    lemma_tm(p, 27, 2, 3, 1, 4, 2, 0, 0, 1, 0, 0, 0, 0, 0, 0, 1);
    assert(t10 * s0 == (27) * mn(p, 2, 3, 1, 4, 2, 0, 1));
    assert(t10 * q == (27) * mn(p, 2, 3, 1, 4, 2, 0, 1));
    lemma_tm(p, 81, 2, 3, 1, 4, 0, 2, 1, 1, 0, 0, 0, 0, 0, 0, 1);
    assert(t11 * s0 == (81) * mn(p, 2, 3, 1, 4, 0, 2, 2));
    assert(t11 * q == (81) * mn(p, 2, 3, 1, 4, 0, 2, 2));
    lemma_tm(p, 324, 2, 3, 1, 3, 0, 3, 0, 1, 0, 0, 0, 0, 0, 0, 1);
    assert(t12 * s0 == (324) * mn(p, 2, 3, 1, 3, 0, 3, 1));
    assert(t12 * q == (324) * mn(p, 2, 3, 1, 3, 0, 3, 1));
    lemma_tm(p, -270, 2, 3, 1, 2, 2, 2, 0, 1, 0, 0, 0, 0, 0, 0, 1);
    assert(t13 * s0 == (-270) * mn(p, 2, 3, 1, 2, 2, 2, 1));
    assert(t13 * q == (-270) * mn(p, 2, 3, 1, 2, 2, 2, 1));
    lemma_tm(p, -162, 2, 3, 1, 2, 0, 4, 1, 1, 0, 0, 0, 0, 0, 0, 1);
    assert(t14 * s0 == (-162) * mn(p, 2, 3, 1, 2, 0, 4, 2));
    assert(t14 * q == (-162) * mn(p, 2, 3, 1, 2, 0, 4, 2));
    lemma_tm(p, 18, 2, 3, 1, 1, 4, 1, 0, 1, 0, 0, 0, 0, 0, 0, 1);
    assert(t15 * s0 == (18) * mn(p, 2, 3, 1, 1, 4, 1, 1));
    assert(t15 * q == (18) * mn(p, 2, 3, 1, 1, 4, 1, 1));
    lemma_tm(p, 54, 2, 3, 1, 1, 2, 3, 1, 1, 0, 0, 0, 0, 0, 0, 1);
    assert(t16 * s0 == (54) * mn(p, 2, 3, 1, 1, 2, 3, 2));
    assert(t16 * q == (54) * mn(p, 2, 3, 1, 1, 2, 3, 2));
    lemma_tm(p, -162, 2, 3, 1, 1, 0, 5, 0, 1, 0, 0, 0, 0, 0, 0, 1);
    assert(t17 * s0 == (-162) * mn(p, 2, 3, 1, 1, 0, 5, 1));
    assert(t17 * q == (-162) * mn(p, 2, 3, 1, 1, 0, 5, 1));
    lemma_tm(p, 135, 2, 3, 1, 0, 2, 4, 0, 1, 0, 0, 0, 0, 0, 0, 1);
    assert(t18 * s0 == (135) * mn(p, 2, 3, 1, 0, 2, 4, 1));
    assert(t18 * q == (135) * mn(p, 2, 3, 1, 0, 2, 4, 1));
    lemma_tm(p, 81, 2, 3, 1, 0, 0, 6, 1, 1, 0, 0, 0, 0, 0, 0, 1);
    assert(t19 * s0 == (81) * mn(p, 2, 3, 1, 0, 0, 6, 2));
    assert(t19 * q == (81) * mn(p, 2, 3, 1, 0, 0, 6, 2));
    lemma_tm(p, -81, 2, 2, 2, 5, 1, 0, 0, 1, 0, 0, 0, 0, 0, 0, 1);
    assert(t20 * s0 == (-81) * mn(p, 2, 2, 2, 5, 1, 0, 1));
    assert(t20 * q == (-81) * mn(p, 2, 2, 2, 5, 1, 0, 1));
    lemma_tm(p, 81, 2, 2, 2, 4, 1, 1, 1, 1, 0, 0, 0, 0, 0, 0, 1);
    assert(t21 * s0 == (81) * mn(p, 2, 2, 2, 4, 1, 1, 2));
    assert(t21 * q == (81) * mn(p, 2, 2, 2, 4, 1, 1, 2));
    lemma_tm(p, 1134, 2, 2, 2, 3, 1, 2, 0, 1, 0, 0, 0, 0, 0, 0, 1);
    assert(t22 * s0 == (1134) * mn(p, 2, 2, 2, 3, 1, 2, 1));
    assert(t22 * q == (1134) * mn(p, 2, 2, 2, 3, 1, 2, 1));
    lemma_tm(p, -270, 2, 2, 2, 2, 3, 1, 0, 1, 0, 0, 0, 0, 0, 0, 1);
    assert(t23 * s0 == (-270) * mn(p, 2, 2, 2, 2, 3, 1, 1));
    assert(t23 * q == (-270) * mn(p, 2, 2, 2, 2, 3, 1, 1));
    lemma_tm(p, -810, 2, 2, 2, 2, 1, 3, 1, 1, 0, 0, 0, 0, 0, 0, 1);
    assert(t24 * s0 == (-810) * mn(p, 2, 2, 2, 2, 1, 3, 2));
    assert(t24 * q == (-810) * mn(p, 2, 2, 2, 2, 1, 3, 2));
    lemma_tm(p, 9, 2, 2, 2, 1, 5, 0, 0, 1, 0, 0, 0, 0, 0, 0, 1);
    assert(t25 * s0 == (9) * mn(p, 2, 2, 2, 1, 5, 0, 1));
    assert(t25 * q == (9) * mn(p, 2, 2, 2, 1, 5, 0, 1));
    lemma_tm(p, 108, 2, 2, 2, 1, 3, 2, 1, 1, 0, 0, 0, 0, 0, 0, 1);
    assert(t26 * s0 == (108) * mn(p, 2, 2, 2, 1, 3, 2, 2));
    assert(t26 * q == (108) * mn(p, 2, 2, 2, 1, 3, 2, 2));
    lemma_tm(p, 81, 2, 2, 2, 1, 1, 4, 2, 1, 0, 0, 0, 0, 0, 0, 1);
    assert(t27 * s0 == (81) * mn(p, 2, 2, 2, 1, 1, 4, 3));
    assert(t27 * q == (81) * mn(p, 2, 2, 2, 1, 1, 4, 3));
    lemma_tm(p, -729, 2, 2, 2, 1, 1, 4, 0, 1, 0, 0, 0, 0, 0, 0, 1);
    assert(t28 * s0 == (-729) * mn(p, 2, 2, 2, 1, 1, 4, 1));
    assert(t28 * q == (-729) * mn(p, 2, 2, 2, 1, 1, 4, 1));
    lemma_tm(p, 216, 2, 2, 2, 0, 3, 3, 0, 1, 0, 0, 0, 0, 0, 0, 1);
    assert(t29 * s0 == (216) * mn(p, 2, 2, 2, 0, 3, 3, 1));
    assert(t29 * q == (216) * mn(p, 2, 2, 2, 0, 3, 3, 1));
    lemma_tm(p, 405, 2, 2, 2, 0, 1, 5, 1, 1, 0, 0, 0, 0, 0, 0, 1);
    assert(t30 * s0 == (405) * mn(p, 2, 2, 2, 0, 1, 5, 2));
    assert(t30 * q == (405) * mn(p, 2, 2, 2, 0, 1, 5, 2));
    lemma_tm(p, 648, 2, 1, 3, 3, 2, 1, 0, 1, 0, 0, 0, 0, 0, 0, 1);
    assert(t31 * s0 == (648) * mn(p, 2, 1, 3, 3, 2, 1, 1));
    assert(t31 * q == (648) * mn(p, 2, 1, 3, 3, 2, 1, 1));
    assert(pp31 * q == ((((((-486) * mn(p, 3, 1, 2, 1, 2, 3, 2) + (-324) * mn(p, 3, 1, 2, 0, 2, 4, 1)) + ((324) * mn(p, 3, 0, 3, 2, 3, 1, 1) + (-324) * mn(p, 3, 0, 3, 1, 3, 2, 2))) + (((-216) * mn(p, 3, 0, 3, 0, 3, 3, 1) + (27) * mn(p, 2, 4, 0, 4, 1, 1, 1)) + ((-54) * mn(p, 2, 4, 0, 2, 1, 3, 1) + (9) * mn(p, 2, 4, 0, 1, 3, 2, 1)))) + ((((27) * mn(p, 2, 4, 0, 0, 1, 5, 1) + (-162) * mn(p, 2, 3, 1, 5, 0, 1, 1)) + ((27) * mn(p, 2, 3, 1, 4, 2, 0, 1) + (81) * mn(p, 2, 3, 1, 4, 0, 2, 2))) + (((324) * mn(p, 2, 3, 1, 3, 0, 3, 1) + (-270) * mn(p, 2, 3, 1, 2, 2, 2, 1)) + ((-162) * mn(p, 2, 3, 1, 2, 0, 4, 2) + (18) * mn(p, 2, 3, 1, 1, 4, 1, 1))))) + (((((54) * mn(p, 2, 3, 1, 1, 2, 3, 2) + (-162) * mn(p, 2, 3, 1, 1, 0, 5, 1)) + ((135) * mn(p, 2, 3, 1, 0, 2, 4, 1) + (81) * mn(p, 2, 3, 1, 0, 0, 6, 2))) + (((-81) * mn(p, 2, 2, 2, 5, 1, 0, 1) + (81) * mn(p, 2, 2, 2, 4, 1, 1, 2)) + ((1134) * mn(p, 2, 2, 2, 3, 1, 2, 1) + (-270) * mn(p, 2, 2, 2, 2, 3, 1, 1)))) + ((((-810) * mn(p, 2, 2, 2, 2, 1, 3, 2) + (9) * mn(p, 2, 2, 2, 1, 5, 0, 1)) + ((108) * mn(p, 2, 2, 2, 1, 3, 2, 2) + (81) * mn(p, 2, 2, 2, 1, 1, 4, 3))) + (((-729) * mn(p, 2, 2, 2, 1, 1, 4, 1) + (216) * mn(p, 2, 2, 2, 0, 3, 3, 1)) + ((405) * mn(p, 2, 2, 2, 0, 1, 5, 2) + (648) * mn(p, 2, 1, 3, 3, 2, 1, 1)))))));
    assert(pp31 == ((((((-486) * mn(p, 3, 1, 2, 1, 2, 3, 1) + (-324) * mn(p, 3, 1, 2, 0, 2, 4, 0)) + ((324) * mn(p, 3, 0, 3, 2, 3, 1, 0) + (-324) * mn(p, 3, 0, 3, 1, 3, 2, 1))) + (((-216) * mn(p, 3, 0, 3, 0, 3, 3, 0) + (27) * mn(p, 2, 4, 0, 4, 1, 1, 0)) + ((-54) * mn(p, 2, 4, 0, 2, 1, 3, 0) + (9) * mn(p, 2, 4, 0, 1, 3, 2, 0)))) + ((((27) * mn(p, 2, 4, 0, 0, 1, 5, 0) + (-162) * mn(p, 2, 3, 1, 5, 0, 1, 0)) + ((27) * mn(p, 2, 3, 1, 4, 2, 0, 0) + (81) * mn(p, 2, 3, 1, 4, 0, 2, 1))) + (((324) * mn(p, 2, 3, 1, 3, 0, 3, 0) + (-270) * mn(p, 2, 3, 1, 2, 2, 2, 0)) + ((-162) * mn(p, 2, 3, 1, 2, 0, 4, 1) + (18) * mn(p, 2, 3, 1, 1, 4, 1, 0))))) + (((((54) * mn(p, 2, 3, 1, 1, 2, 3, 1) + (-162) * mn(p, 2, 3, 1, 1, 0, 5, 0)) + ((135) * mn(p, 2, 3, 1, 0, 2, 4, 0) + (81) * mn(p, 2, 3, 1, 0, 0, 6, 1))) + (((-81) * mn(p, 2, 2, 2, 5, 1, 0, 0) + (81) * mn(p, 2, 2, 2, 4, 1, 1, 1)) + ((1134) * mn(p, 2, 2, 2, 3, 1, 2, 0) + (-270) * mn(p, 2, 2, 2, 2, 3, 1, 0)))) + ((((-810) * mn(p, 2, 2, 2, 2, 1, 3, 1) + (9) * mn(p, 2, 2, 2, 1, 5, 0, 0)) + ((108) * mn(p, 2, 2, 2, 1, 3, 2, 1) + (81) * mn(p, 2, 2, 2, 1, 1, 4, 2))) + (((-729) * mn(p, 2, 2, 2, 1, 1, 4, 0) + (216) * mn(p, 2, 2, 2, 0, 3, 3, 0)) + ((405) * mn(p, 2, 2, 2, 0, 1, 5, 1) + (648) * mn(p, 2, 1, 3, 3, 2, 1, 0)))))));
    assert(q == (1) * mn(p, 0, 0, 0, 0, 0, 0, 1));
}

#[verifier::rlimit(100)]
proof fn acb_prod21_c2(p: Pt)
    ensures
        (((((((-54) * mn(p, 2, 1, 3, 2, 4, 0, 0) + (-810) * mn(p, 2, 1, 3, 2, 2, 2, 1)) + ((54) * mn(p, 2, 1, 3, 1, 4, 1, 1) + (162) * mn(p, 2, 1, 3, 1, 2, 3, 2))) + (((-972) * mn(p, 2, 1, 3, 1, 2, 3, 0) + (108) * mn(p, 2, 1, 3, 0, 4, 2, 0)) + ((648) * mn(p, 2, 1, 3, 0, 2, 4, 1) + (81) * mn(p, 2, 0, 4, 3, 3, 0, 0)))) + ((((-162) * mn(p, 2, 0, 4, 2, 3, 1, 1) + (81) * mn(p, 2, 0, 4, 1, 3, 2, 2)) + ((-324) * mn(p, 2, 0, 4, 1, 3, 2, 0) + (324) * mn(p, 2, 0, 4, 0, 3, 3, 1))) + (((9) * mn(p, 1, 5, 0, 2, 2, 2, 0) + (-9) * mn(p, 1, 5, 0, 0, 2, 4, 0)) + ((-108) * mn(p, 1, 4, 1, 3, 1, 2, 0) + (18) * mn(p, 1, 4, 1, 2, 3, 1, 0))))) + (((((54) * mn(p, 1, 4, 1, 2, 1, 3, 1) + (108) * mn(p, 1, 4, 1, 1, 1, 4, 0)) + ((-36) * mn(p, 1, 4, 1, 0, 3, 3, 0) + (-54) * mn(p, 1, 4, 1, 0, 1, 5, 1))) + (((324) * mn(p, 1, 3, 2, 4, 0, 2, 0) + (-162) * mn(p, 1, 3, 2, 3, 2, 1, 0)) + ((-324) * mn(p, 1, 3, 2, 3, 0, 3, 1) + (9) * mn(p, 1, 3, 2, 2, 4, 0, 0)))) + ((((108) * mn(p, 1, 3, 2, 2, 2, 2, 1) + (81) * mn(p, 1, 3, 2, 2, 0, 4, 2)) + ((-324) * mn(p, 1, 3, 2, 2, 0, 4, 0) + (378) * mn(p, 1, 3, 2, 1, 2, 3, 0))) + (((324) * mn(p, 1, 3, 2, 1, 0, 5, 1) + (-45) * mn(p, 1, 3, 2, 0, 4, 2, 0)) + ((-216) * mn(p, 1, 3, 2, 0, 2, 4, 1) + (-81) * mn(p, 1, 3, 2, 0, 0, 6, 2))))))) * ((1) * mn(p, 0, 0, 0, 0, 0, 0, 1)) == ((((((-54) * mn(p, 2, 1, 3, 2, 4, 0, 1) + (-810) * mn(p, 2, 1, 3, 2, 2, 2, 2)) + ((54) * mn(p, 2, 1, 3, 1, 4, 1, 2) + (162) * mn(p, 2, 1, 3, 1, 2, 3, 3))) + (((-972) * mn(p, 2, 1, 3, 1, 2, 3, 1) + (108) * mn(p, 2, 1, 3, 0, 4, 2, 1)) + ((648) * mn(p, 2, 1, 3, 0, 2, 4, 2) + (81) * mn(p, 2, 0, 4, 3, 3, 0, 1)))) + ((((-162) * mn(p, 2, 0, 4, 2, 3, 1, 2) + (81) * mn(p, 2, 0, 4, 1, 3, 2, 3)) + ((-324) * mn(p, 2, 0, 4, 1, 3, 2, 1) + (324) * mn(p, 2, 0, 4, 0, 3, 3, 2))) + (((9) * mn(p, 1, 5, 0, 2, 2, 2, 1) + (-9) * mn(p, 1, 5, 0, 0, 2, 4, 1)) + ((-108) * mn(p, 1, 4, 1, 3, 1, 2, 1) + (18) * mn(p, 1, 4, 1, 2, 3, 1, 1))))) + (((((54) * mn(p, 1, 4, 1, 2, 1, 3, 2) + (108) * mn(p, 1, 4, 1, 1, 1, 4, 1)) + ((-36) * mn(p, 1, 4, 1, 0, 3, 3, 1) + (-54) * mn(p, 1, 4, 1, 0, 1, 5, 2))) + (((324) * mn(p, 1, 3, 2, 4, 0, 2, 1) + (-162) * mn(p, 1, 3, 2, 3, 2, 1, 1)) + ((-324) * mn(p, 1, 3, 2, 3, 0, 3, 2) + (9) * mn(p, 1, 3, 2, 2, 4, 0, 1)))) + ((((108) * mn(p, 1, 3, 2, 2, 2, 2, 2) + (81) * mn(p, 1, 3, 2, 2, 0, 4, 3)) + ((-324) * mn(p, 1, 3, 2, 2, 0, 4, 1) + (378) * mn(p, 1, 3, 2, 1, 2, 3, 1))) + (((324) * mn(p, 1, 3, 2, 1, 0, 5, 2) + (-45) * mn(p, 1, 3, 2, 0, 4, 2, 1)) + ((-216) * mn(p, 1, 3, 2, 0, 2, 4, 2) + (-81) * mn(p, 1, 3, 2, 0, 0, 6, 3)))))),
{
    let t0 = (-54) * mn(p, 2, 1, 3, 2, 4, 0, 0);
    let t1 = (-810) * mn(p, 2, 1, 3, 2, 2, 2, 1);
    let t2 = (54) * mn(p, 2, 1, 3, 1, 4, 1, 1);
    let t3 = (162) * mn(p, 2, 1, 3, 1, 2, 3, 2);
    let t4 = (-972) * mn(p, 2, 1, 3, 1, 2, 3, 0);
    let t5 = (108) * mn(p, 2, 1, 3, 0, 4, 2, 0);
    let t6 = (648) * mn(p, 2, 1, 3, 0, 2, 4, 1);
    let t7 = (81) * mn(p, 2, 0, 4, 3, 3, 0, 0);
    let t8 = (-162) * mn(p, 2, 0, 4, 2, 3, 1, 1);
    let t9 = (81) * mn(p, 2, 0, 4, 1, 3, 2, 2);
    let t10 = (-324) * mn(p, 2, 0, 4, 1, 3, 2, 0);
    let t11 = (324) * mn(p, 2, 0, 4, 0, 3, 3, 1);
    let t12 = (9) * mn(p, 1, 5, 0, 2, 2, 2, 0);
    let t13 = (-9) * mn(p, 1, 5, 0, 0, 2, 4, 0);
    let t14 = (-108) * mn(p, 1, 4, 1, 3, 1, 2, 0);
    let t15 = (18) * mn(p, 1, 4, 1, 2, 3, 1, 0);
    let t16 = (54) * mn(p, 1, 4, 1, 2, 1, 3, 1);
    let t17 = (108) * mn(p, 1, 4, 1, 1, 1, 4, 0);
    let t18 = (-36) * mn(p, 1, 4, 1, 0, 3, 3, 0);
    let t19 = (-54) * mn(p, 1, 4, 1, 0, 1, 5, 1);
    let t20 = (324) * mn(p, 1, 3, 2, 4, 0, 2, 0);
    let t21 = (-162) * mn(p, 1, 3, 2, 3, 2, 1, 0);
    let t22 = (-324) * mn(p, 1, 3, 2, 3, 0, 3, 1);
    let t23 = (9) * mn(p, 1, 3, 2, 2, 4, 0, 0);
    let t24 = (108) * mn(p, 1, 3, 2, 2, 2, 2, 1);
    let t25 = (81) * mn(p, 1, 3, 2, 2, 0, 4, 2);
    let t26 = (-324) * mn(p, 1, 3, 2, 2, 0, 4, 0);
    let t27 = (378) * mn(p, 1, 3, 2, 1, 2, 3, 0);
    let t28 = (324) * mn(p, 1, 3, 2, 1, 0, 5, 1);
    let t29 = (-45) * mn(p, 1, 3, 2, 0, 4, 2, 0);
    let t30 = (-216) * mn(p, 1, 3, 2, 0, 2, 4, 1);
    let t31 = (-81) * mn(p, 1, 3, 2, 0, 0, 6, 2);
    let s0 = (1) * mn(p, 0, 0, 0, 0, 0, 0, 1);
    let pp0 = t0;
    let pp1 = pp0 + t1;
    let pp2 = pp1 + t2;
    let pp3 = pp2 + t3;
    let pp4 = pp3 + t4;
    let pp5 = pp4 + t5;
    let pp6 = pp5 + t6;
    let pp7 = pp6 + t7;
    let pp8 = pp7 + t8;
    let pp9 = pp8 + t9;
    let pp10 = pp9 + t10;
    let pp11 = pp10 + t11;
    let pp12 = pp11 + t12;
    let pp13 = pp12 + t13;
    let pp14 = pp13 + t14;
    let pp15 = pp14 + t15;
    let pp16 = pp15 + t16;
    let pp17 = pp16 + t17;
    let pp18 = pp17 + t18;
    let pp19 = pp18 + t19;
    let pp20 = pp19 + t20;
    let pp21 = pp20 + t21;
    let pp22 = pp21 + t22;
    let pp23 = pp22 + t23;
    let pp24 = pp23 + t24;
    let pp25 = pp24 + t25;
    let pp26 = pp25 + t26;
    let pp27 = pp26 + t27;
    let pp28 = pp27 + t28;
    let pp29 = pp28 + t29;
    let pp30 = pp29 + t30;
    let pp31 = pp30 + t31;
    let qq0 = s0;
    let q = qq0;
    lemma_mul_is_distributive_add_other_way(q, pp0, t1);
    lemma_mul_is_distributive_add_other_way(q, pp1, t2);
    lemma_mul_is_distributive_add_other_way(q, pp2, t3);
    lemma_mul_is_distributive_add_other_way(q, pp3, t4);
    lemma_mul_is_distributive_add_other_way(q, pp4, t5);
    lemma_mul_is_distributive_add_other_way(q, pp5, t6);
    lemma_mul_is_distributive_add_other_way(q, pp6, t7);
    lemma_mul_is_distributive_add_other_way(q, pp7, t8);
    lemma_mul_is_distributive_add_other_way(q, pp8, t9);
    lemma_mul_is_distributive_add_other_way(q, pp9, t10);
    lemma_mul_is_distributive_add_other_way(q, pp10, t11);
    lemma_mul_is_distributive_add_other_way(q, pp11, t12);
    lemma_mul_is_distributive_add_other_way(q, pp12, t13);
    lemma_mul_is_distributive_add_other_way(q, pp13, t14);
    lemma_mul_is_distributive_add_other_way(q, pp14, t15);
    lemma_mul_is_distributive_add_other_way(q, pp15, t16);
    lemma_mul_is_distributive_add_other_way(q, pp16, t17);
    lemma_mul_is_distributive_add_other_way(q, pp17, t18);
    lemma_mul_is_distributive_add_other_way(q, pp18, t19);
    lemma_mul_is_distributive_add_other_way(q, pp19, t20);
    lemma_mul_is_distributive_add_other_way(q, pp20, t21);
    lemma_mul_is_distributive_add_other_way(q, pp21, t22);
    lemma_mul_is_distributive_add_other_way(q, pp22, t23);
    lemma_mul_is_distributive_add_other_way(q, pp23, t24);
    lemma_mul_is_distributive_add_other_way(q, pp24, t25);
    lemma_mul_is_distributive_add_other_way(q, pp25, t26);
    lemma_mul_is_distributive_add_other_way(q, pp26, t27);
    lemma_mul_is_distributive_add_other_way(q, pp27, t28);
    lemma_mul_is_distributive_add_other_way(q, pp28, t29);
    lemma_mul_is_distributive_add_other_way(q, pp29, t30);
    lemma_mul_is_distributive_add_other_way(q, pp30, t31);
    lemma_tm(p, -54, 2, 1, 3, 2, 4, 0, 0, 1, 0, 0, 0, 0, 0, 0, 1);
    assert(t0 * s0 == (-54) * mn(p, 2, 1, 3, 2, 4, 0, 1));
    assert(t0 * q == (-54) * mn(p, 2, 1, 3, 2, 4, 0, 1));
    lemma_tm(p, -810, 2, 1, 3, 2, 2, 2, 1, 1, 0, 0, 0, 0, 0, 0, 1);
    assert(t1 * s0 == (-810) * mn(p, 2, 1, 3, 2, 2, 2, 2));
    assert(t1 * q == (-810) * mn(p, 2, 1, 3, 2, 2, 2, 2));
    lemma_tm(p, 54, 2, 1, 3, 1, 4, 1, 1, 1, 0, 0, 0, 0, 0, 0, 1);
    assert(t2 * s0 == (54) * mn(p, 2, 1, 3, 1, 4, 1, 2));
    assert(t2 * q == (54) * mn(p, 2, 1, 3, 1, 4, 1, 2));
    lemma_tm(p, 162, 2, 1, 3, 1, 2, 3, 2, 1, 0, 0, 0, 0, 0, 0, 1);
    assert(t3 * s0 == (162) * mn(p, 2, 1, 3, 1, 2, 3, 3));
    assert(t3 * q == (162) * mn(p, 2, 1, 3, 1, 2, 3, 3));
    lemma_tm(p, -972, 2, 1, 3, 1, 2, 3, 0, 1, 0, 0, 0, 0, 0, 0, 1);
    assert(t4 * s0 == (-972) * mn(p, 2, 1, 3, 1, 2, 3, 1));
    assert(t4 * q == (-972) * mn(p, 2, 1, 3, 1, 2, 3, 1));
    lemma_tm(p, 108, 2, 1, 3, 0, 4, 2, 0, 1, 0, 0, 0, 0, 0, 0, 1);
    assert(t5 * s0 == (108) * mn(p, 2, 1, 3, 0, 4, 2, 1));
    assert(t5 * q == (108) * mn(p, 2, 1, 3, 0, 4, 2, 1));
    lemma_tm(p, 648, 2, 1, 3, 0, 2, 4, 1, 1, 0, 0, 0, 0, 0, 0, 1);
    assert(t6 * s0 == (648) * mn(p, 2, 1, 3, 0, 2, 4, 2));
    assert(t6 * q == (648) * mn(p, 2, 1, 3, 0, 2, 4, 2));
    lemma_tm(p, 81, 2, 0, 4, 3, 3, 0, 0, 1, 0, 0, 0, 0, 0, 0, 1);
    assert(t7 * s0 == (81) * mn(p, 2, 0, 4, 3, 3, 0, 1));
    assert(t7 * q == (81) * mn(p, 2, 0, 4, 3, 3, 0, 1));
    lemma_tm(p, -162, 2, 0, 4, 2, 3, 1, 1, 1, 0, 0, 0, 0, 0, 0, 1);
    assert(t8 * s0 == (-162) * mn(p, 2, 0, 4, 2, 3, 1, 2));
    assert(t8 * q == (-162) * mn(p, 2, 0, 4, 2, 3, 1, 2));
    lemma_tm(p, 81, 2, 0, 4, 1, 3, 2, 2, 1, 0, 0, 0, 0, 0, 0, 1);
    assert(t9 * s0 == (81) * mn(p, 2, 0, 4, 1, 3, 2, 3));
    assert(t9 * q == (81) * mn(p, 2, 0, 4, 1, 3, 2, 3));
    lemma_tm(p, -324, 2, 0, 4, 1, 3, 2, 0, 1, 0, 0, 0, 0, 0, 0, 1);
    assert(t10 * s0 == (-324) * mn(p, 2, 0, 4, 1, 3, 2, 1));
    assert(t10 * q == (-324) * mn(p, 2, 0, 4, 1, 3, 2, 1));
    lemma_tm(p, 324, 2, 0, 4, 0, 3, 3, 1, 1, 0, 0, 0, 0, 0, 0, 1);
    assert(t11 * s0 == (324) * mn(p, 2, 0, 4, 0, 3, 3, 2));
    assert(t11 * q == (324) * mn(p, 2, 0, 4, 0, 3, 3, 2));
    lemma_tm(p, 9, 1, 5, 0, 2, 2, 2, 0, 1, 0, 0, 0, 0, 0, 0, 1);
    assert(t12 * s0 == (9) * mn(p, 1, 5, 0, 2, 2, 2, 1));
    assert(t12 * q == (9) * mn(p, 1, 5, 0, 2, 2, 2, 1));
    lemma_tm(p, -9, 1, 5, 0, 0, 2, 4, 0, 1, 0, 0, 0, 0, 0, 0, 1);
    assert(t13 * s0 == (-9) * mn(p, 1, 5, 0, 0, 2, 4, 1));
    assert(t13 * q == (-9) * mn(p, 1, 5, 0, 0, 2, 4, 1));
    lemma_tm(p, -108, 1, 4, 1, 3, 1, 2, 0, 1, 0, 0, 0, 0, 0, 0, 1);
    assert(t14 * s0 == (-108) * mn(p, 1, 4, 1, 3, 1, 2, 1));
    assert(t14 * q == (-108) * mn(p, 1, 4, 1, 3, 1, 2, 1));
    lemma_tm(p, 18, 1, 4, 1, 2, 3, 1, 0, 1, 0, 0, 0, 0, 0, 0, 1);
    assert(t15 * s0 == (18) * mn(p, 1, 4, 1, 2, 3, 1, 1));
    assert(t15 * q == (18) * mn(p, 1, 4, 1, 2, 3, 1, 1));
    lemma_tm(p, 54, 1, 4, 1, 2, 1, 3, 1, 1, 0, 0, 0, 0, 0, 0, 1);
    assert(t16 * s0 == (54) * mn(p, 1, 4, 1, 2, 1, 3, 2));
    assert(t16 * q == (54) * mn(p, 1, 4, 1, 2, 1, 3, 2));
    lemma_tm(p, 108, 1, 4, 1, 1, 1, 4, 0, 1, 0, 0, 0, 0, 0, 0, 1);
    assert(t17 * s0 == (108) * mn(p, 1, 4, 1, 1, 1, 4, 1));
    assert(t17 * q == (108) * mn(p, 1, 4, 1, 1, 1, 4, 1));
    lemma_tm(p, -36, 1, 4, 1, 0, 3, 3, 0, 1, 0, 0, 0, 0, 0, 0, 1);
    assert(t18 * s0 == (-36) * mn(p, 1, 4, 1, 0, 3, 3, 1));
    assert(t18 * q == (-36) * mn(p, 1, 4, 1, 0, 3, 3, 1));
    lemma_tm(p, -54, 1, 4, 1, 0, 1, 5, 1, 1, 0, 0, 0, 0, 0, 0, 1);
    assert(t19 * s0 == (-54) * mn(p, 1, 4, 1, 0, 1, 5, 2));
    assert(t19 * q == (-54) * mn(p, 1, 4, 1, 0, 1, 5, 2));
    lemma_tm(p, 324, 1, 3, 2, 4, 0, 2, 0, 1, 0, 0, 0, 0, 0, 0, 1);
    assert(t20 * s0 == (324) * mn(p, 1, 3, 2, 4, 0, 2, 1));
    assert(t20 * q == (324) * mn(p, 1, 3, 2, 4, 0, 2, 1));
    lemma_tm(p, -162, 1, 3, 2, 3, 2, 1, 0, 1, 0, 0, 0, 0, 0, 0, 1);
    assert(t21 * s0 == (-162) * mn(p, 1, 3, 2, 3, 2, 1, 1));
    assert(t21 * q == (-162) * mn(p, 1, 3, 2, 3, 2, 1, 1));
    lemma_tm(p, -324, 1, 3, 2, 3, 0, 3, 1, 1, 0, 0, 0, 0, 0, 0, 1);
    assert(t22 * s0 == (-324) * mn(p, 1, 3, 2, 3, 0, 3, 2));
    assert(t22 * q == (-324) * mn(p, 1, 3, 2, 3, 0, 3, 2));
    lemma_tm(p, 9, 1, 3, 2, 2, 4, 0, 0, 1, 0, 0, 0, 0, 0, 0, 1);
    assert(t23 * s0 == (9) * mn(p, 1, 3, 2, 2, 4, 0, 1));
    assert(t23 * q == (9) * mn(p, 1, 3, 2, 2, 4, 0, 1));
    lemma_tm(p, 108, 1, 3, 2, 2, 2, 2, 1, 1, 0, 0, 0, 0, 0, 0, 1);
    assert(t24 * s0 == (108) * mn(p, 1, 3, 2, 2, 2, 2, 2));
    assert(t24 * q == (108) * mn(p, 1, 3, 2, 2, 2, 2, 2));
    lemma_tm(p, 81, 1, 3, 2, 2, 0, 4, 2, 1, 0, 0, 0, 0, 0, 0, 1);
    assert(t25 * s0 == (81) * mn(p, 1, 3, 2, 2, 0, 4, 3));
    assert(t25 * q == (81) * mn(p, 1, 3, 2, 2, 0, 4, 3));
    lemma_tm(p, -324, 1, 3, 2, 2, 0, 4, 0, 1, 0, 0, 0, 0, 0, 0, 1);
    assert(t26 * s0 == (-324) * mn(p, 1, 3, 2, 2, 0, 4, 1));
    assert(t26 * q == (-324) * mn(p, 1, 3, 2, 2, 0, 4, 1));
    lemma_tm(p, 378, 1, 3, 2, 1, 2, 3, 0, 1, 0, 0, 0, 0, 0, 0, 1);
    assert(t27 * s0 == (378) * mn(p, 1, 3, 2, 1, 2, 3, 1));
    assert(t27 * q == (378) * mn(p, 1, 3, 2, 1, 2, 3, 1));
    lemma_tm(p, 324, 1, 3, 2, 1, 0, 5, 1, 1, 0, 0, 0, 0, 0, 0, 1);
    assert(t28 * s0 == (324) * mn(p, 1, 3, 2, 1, 0, 5, 2));
    assert(t28 * q == (324) * mn(p, 1, 3, 2, 1, 0, 5, 2));
    lemma_tm(p, -45, 1, 3, 2, 0, 4, 2, 0, 1, 0, 0, 0, 0, 0, 0, 1);
    assert(t29 * s0 == (-45) * mn(p, 1, 3, 2, 0, 4, 2, 1));
    assert(t29 * q == (-45) * mn(p, 1, 3, 2, 0, 4, 2, 1));
    lemma_tm(p, -216, 1, 3, 2, 0, 2, 4, 1, 1, 0, 0, 0, 0, 0, 0, 1);
    assert(t30 * s0 == (-216) * mn(p, 1, 3, 2, 0, 2, 4, 2));
    assert(t30 * q == (-216) * mn(p, 1, 3, 2, 0, 2, 4, 2));
    lemma_tm(p, -81, 1, 3, 2, 0, 0, 6, 2, 1, 0, 0, 0, 0, 0, 0, 1);
    assert(t31 * s0 == (-81) * mn(p, 1, 3, 2, 0, 0, 6, 3));
    assert(t31 * q == (-81) * mn(p, 1, 3, 2, 0, 0, 6, 3));
    assert(pp31 * q == ((((((-54) * mn(p, 2, 1, 3, 2, 4, 0, 1) + (-810) * mn(p, 2, 1, 3, 2, 2, 2, 2)) + ((54) * mn(p, 2, 1, 3, 1, 4, 1, 2) + (162) * mn(p, 2, 1, 3, 1, 2, 3, 3))) + (((-972) * mn(p, 2, 1, 3, 1, 2, 3, 1) + (108) * mn(p, 2, 1, 3, 0, 4, 2, 1)) + ((648) * mn(p, 2, 1, 3, 0, 2, 4, 2) + (81) * mn(p, 2, 0, 4, 3, 3, 0, 1)))) + ((((-162) * mn(p, 2, 0, 4, 2, 3, 1, 2) + (81) * mn(p, 2, 0, 4, 1, 3, 2, 3)) + ((-324) * mn(p, 2, 0, 4, 1, 3, 2, 1) + (324) * mn(p, 2, 0, 4, 0, 3, 3, 2))) + (((9) * mn(p, 1, 5, 0, 2, 2, 2, 1) + (-9) * mn(p, 1, 5, 0, 0, 2, 4, 1)) + ((-108) * mn(p, 1, 4, 1, 3, 1, 2, 1) + (18) * mn(p, 1, 4, 1, 2, 3, 1, 1))))) + (((((54) * mn(p, 1, 4, 1, 2, 1, 3, 2) + (108) * mn(p, 1, 4, 1, 1, 1, 4, 1)) + ((-36) * mn(p, 1, 4, 1, 0, 3, 3, 1) + (-54) * mn(p, 1, 4, 1, 0, 1, 5, 2))) + (((324) * mn(p, 1, 3, 2, 4, 0, 2, 1) + (-162) * mn(p, 1, 3, 2, 3, 2, 1, 1)) + ((-324) * mn(p, 1, 3, 2, 3, 0, 3, 2) + (9) * mn(p, 1, 3, 2, 2, 4, 0, 1)))) + ((((108) * mn(p, 1, 3, 2, 2, 2, 2, 2) + (81) * mn(p, 1, 3, 2, 2, 0, 4, 3)) + ((-324) * mn(p, 1, 3, 2, 2, 0, 4, 1) + (378) * mn(p, 1, 3, 2, 1, 2, 3, 1))) + (((324) * mn(p, 1, 3, 2, 1, 0, 5, 2) + (-45) * mn(p, 1, 3, 2, 0, 4, 2, 1)) + ((-216) * mn(p, 1, 3, 2, 0, 2, 4, 2) + (-81) * mn(p, 1, 3, 2, 0, 0, 6, 3)))))));
    assert(pp31 == ((((((-54) * mn(p, 2, 1, 3, 2, 4, 0, 0) + (-810) * mn(p, 2, 1, 3, 2, 2, 2, 1)) + ((54) * mn(p, 2, 1, 3, 1, 4, 1, 1) + (162) * mn(p, 2, 1, 3, 1, 2, 3, 2))) + (((-972) * mn(p, 2, 1, 3, 1, 2, 3, 0) + (108) * mn(p, 2, 1, 3, 0, 4, 2, 0)) + ((648) * mn(p, 2, 1, 3, 0, 2, 4, 1) + (81) * mn(p, 2, 0, 4, 3, 3, 0, 0)))) + ((((-162) * mn(p, 2, 0, 4, 2, 3, 1, 1) + (81) * mn(p, 2, 0, 4, 1, 3, 2, 2)) + ((-324) * mn(p, 2, 0, 4, 1, 3, 2, 0) + (324) * mn(p, 2, 0, 4, 0, 3, 3, 1))) + (((9) * mn(p, 1, 5, 0, 2, 2, 2, 0) + (-9) * mn(p, 1, 5, 0, 0, 2, 4, 0)) + ((-108) * mn(p, 1, 4, 1, 3, 1, 2, 0) + (18) * mn(p, 1, 4, 1, 2, 3, 1, 0))))) + (((((54) * mn(p, 1, 4, 1, 2, 1, 3, 1) + (108) * mn(p, 1, 4, 1, 1, 1, 4, 0)) + ((-36) * mn(p, 1, 4, 1, 0, 3, 3, 0) + (-54) * mn(p, 1, 4, 1, 0, 1, 5, 1))) + (((324) * mn(p, 1, 3, 2, 4, 0, 2, 0) + (-162) * mn(p, 1, 3, 2, 3, 2, 1, 0)) + ((-324) * mn(p, 1, 3, 2, 3, 0, 3, 1) + (9) * mn(p, 1, 3, 2, 2, 4, 0, 0)))) + ((((108) * mn(p, 1, 3, 2, 2, 2, 2, 1) + (81) * mn(p, 1, 3, 2, 2, 0, 4, 2)) + ((-324) * mn(p, 1, 3, 2, 2, 0, 4, 0) + (378) * mn(p, 1, 3, 2, 1, 2, 3, 0))) + (((324) * mn(p, 1, 3, 2, 1, 0, 5, 1) + (-45) * mn(p, 1, 3, 2, 0, 4, 2, 0)) + ((-216) * mn(p, 1, 3, 2, 0, 2, 4, 1) + (-81) * mn(p, 1, 3, 2, 0, 0, 6, 2)))))));
    assert(q == (1) * mn(p, 0, 0, 0, 0, 0, 0, 1));
}

#[verifier::rlimit(100)]
proof fn acb_prod21_c3(p: Pt)
    ensures
        (((((((324) * mn(p, 1, 2, 3, 4, 1, 1, 0) + (-54) * mn(p, 1, 2, 3, 3, 3, 0, 0)) + ((-486) * mn(p, 1, 2, 3, 3, 1, 2, 1) + (54) * mn(p, 1, 2, 3, 2, 3, 1, 1))) + (((162) * mn(p, 1, 2, 3, 2, 1, 3, 2) + (-972) * mn(p, 1, 2, 3, 2, 1, 3, 0)) + ((378) * mn(p, 1, 2, 3, 1, 3, 2, 0) + (1134) * mn(p, 1, 2, 3, 1, 1, 4, 1)))) + ((((-18) * mn(p, 1, 2, 3, 0, 5, 1, 0) + (-270) * mn(p, 1, 2, 3, 0, 3, 3, 1)) + ((-324) * mn(p, 1, 2, 3, 0, 1, 5, 2) + (81) * mn(p, 1, 1, 4, 4, 2, 0, 0))) + (((-162) * mn(p, 1, 1, 4, 3, 2, 1, 1) + (81) * mn(p, 1, 1, 4, 2, 2, 2, 2)) + ((-729) * mn(p, 1, 1, 4, 2, 2, 2, 0) + (108) * mn(p, 1, 1, 4, 1, 4, 1, 0))))) + (((((1134) * mn(p, 1, 1, 4, 1, 2, 3, 1) + (-108) * mn(p, 1, 1, 4, 0, 4, 2, 1)) + ((-405) * mn(p, 1, 1, 4, 0, 2, 4, 2) + (-162) * mn(p, 1, 0, 5, 2, 3, 1, 0))) + (((324) * mn(p, 1, 0, 5, 1, 3, 2, 1) + (-162) * mn(p, 1, 0, 5, 0, 3, 3, 2)) + ((1) * mn(p, 0, 6, 0, 0, 3, 3, 0) + (-18) * mn(p, 0, 5, 1, 1, 2, 3, 0)))) + ((((3) * mn(p, 0, 5, 1, 0, 4, 2, 0) + (9) * mn(p, 0, 5, 1, 0, 2, 4, 1)) + ((108) * mn(p, 0, 4, 2, 2, 1, 3, 0) + (-45) * mn(p, 0, 4, 2, 1, 3, 2, 0))) + (((-108) * mn(p, 0, 4, 2, 1, 1, 4, 1) + (3) * mn(p, 0, 4, 2, 0, 5, 1, 0)) + ((27) * mn(p, 0, 4, 2, 0, 3, 3, 1) + (27) * mn(p, 0, 4, 2, 0, 1, 5, 2))))))) * ((1) * mn(p, 0, 0, 0, 0, 0, 0, 1)) == ((((((324) * mn(p, 1, 2, 3, 4, 1, 1, 1) + (-54) * mn(p, 1, 2, 3, 3, 3, 0, 1)) + ((-486) * mn(p, 1, 2, 3, 3, 1, 2, 2) + (54) * mn(p, 1, 2, 3, 2, 3, 1, 2))) + (((162) * mn(p, 1, 2, 3, 2, 1, 3, 3) + (-972) * mn(p, 1, 2, 3, 2, 1, 3, 1)) + ((378) * mn(p, 1, 2, 3, 1, 3, 2, 1) + (1134) * mn(p, 1, 2, 3, 1, 1, 4, 2)))) + ((((-18) * mn(p, 1, 2, 3, 0, 5, 1, 1) + (-270) * mn(p, 1, 2, 3, 0, 3, 3, 2)) + ((-324) * mn(p, 1, 2, 3, 0, 1, 5, 3) + (81) * mn(p, 1, 1, 4, 4, 2, 0, 1))) + (((-162) * mn(p, 1, 1, 4, 3, 2, 1, 2) + (81) * mn(p, 1, 1, 4, 2, 2, 2, 3)) + ((-729) * mn(p, 1, 1, 4, 2, 2, 2, 1) + (108) * mn(p, 1, 1, 4, 1, 4, 1, 1))))) + (((((1134) * mn(p, 1, 1, 4, 1, 2, 3, 2) + (-108) * mn(p, 1, 1, 4, 0, 4, 2, 2)) + ((-405) * mn(p, 1, 1, 4, 0, 2, 4, 3) + (-162) * mn(p, 1, 0, 5, 2, 3, 1, 1))) + (((324) * mn(p, 1, 0, 5, 1, 3, 2, 2) + (-162) * mn(p, 1, 0, 5, 0, 3, 3, 3)) + ((1) * mn(p, 0, 6, 0, 0, 3, 3, 1) + (-18) * mn(p, 0, 5, 1, 1, 2, 3, 1)))) + ((((3) * mn(p, 0, 5, 1, 0, 4, 2, 1) + (9) * mn(p, 0, 5, 1, 0, 2, 4, 2)) + ((108) * mn(p, 0, 4, 2, 2, 1, 3, 1) + (-45) * mn(p, 0, 4, 2, 1, 3, 2, 1))) + (((-108) * mn(p, 0, 4, 2, 1, 1, 4, 2) + (3) * mn(p, 0, 4, 2, 0, 5, 1, 1)) + ((27) * mn(p, 0, 4, 2, 0, 3, 3, 2) + (27) * mn(p, 0, 4, 2, 0, 1, 5, 3)))))),
{
    let t0 = (324) * mn(p, 1, 2, 3, 4, 1, 1, 0);
    let t1 = (-54) * mn(p, 1, 2, 3, 3, 3, 0, 0);
    let t2 = (-486) * mn(p, 1, 2, 3, 3, 1, 2, 1);
    let t3 = (54) * mn(p, 1, 2, 3, 2, 3, 1, 1);
    let t4 = (162) * mn(p, 1, 2, 3, 2, 1, 3, 2);
    let t5 = (-972) * mn(p, 1, 2, 3, 2, 1, 3, 0);
    let t6 = (378) * mn(p, 1, 2, 3, 1, 3, 2, 0);
    let t7 = (1134) * mn(p, 1, 2, 3, 1, 1, 4, 1);
    let t8 = (-18) * mn(p, 1, 2, 3, 0, 5, 1, 0);
    let t9 = (-270) * mn(p, 1, 2, 3, 0, 3, 3, 1);
    let t10 = (-324) * mn(p, 1, 2, 3, 0, 1, 5, 2);
    let t11 = (81) * mn(p, 1, 1, 4, 4, 2, 0, 0);
    let t12 = (-162) * mn(p, 1, 1, 4, 3, 2, 1, 1);
    let t13 = (81) * mn(p, 1, 1, 4, 2, 2, 2, 2);
    let t14 = (-729) * mn(p, 1, 1, 4, 2, 2, 2, 0);
    let t15 = (108) * mn(p, 1, 1, 4, 1, 4, 1, 0);
    let t16 = (1134) * mn(p, 1, 1, 4, 1, 2, 3, 1);
    let t17 = (-108) * mn(p, 1, 1, 4, 0, 4, 2, 1);
    let t18 = (-405) * mn(p, 1, 1, 4, 0, 2, 4, 2);
    let t19 = (-162) * mn(p, 1, 0, 5, 2, 3, 1, 0);
    let t20 = (324) * mn(p, 1, 0, 5, 1, 3, 2, 1);
    let t21 = (-162) * mn(p, 1, 0, 5, 0, 3, 3, 2);
    let t22 = (1) * mn(p, 0, 6, 0, 0, 3, 3, 0);
    let t23 = (-18) * mn(p, 0, 5, 1, 1, 2, 3, 0);
    let t24 = (3) * mn(p, 0, 5, 1, 0, 4, 2, 0);
    let t25 = (9) * mn(p, 0, 5, 1, 0, 2, 4, 1);
    let t26 = (108) * mn(p, 0, 4, 2, 2, 1, 3, 0);
    let t27 = (-45) * mn(p, 0, 4, 2, 1, 3, 2, 0);
    let t28 = (-108) * mn(p, 0, 4, 2, 1, 1, 4, 1);
    let t29 = (3) * mn(p, 0, 4, 2, 0, 5, 1, 0);
    let t30 = (27) * mn(p, 0, 4, 2, 0, 3, 3, 1);
    let t31 = (27) * mn(p, 0, 4, 2, 0, 1, 5, 2);
    let s0 = (1) * mn(p, 0, 0, 0, 0, 0, 0, 1);
    let pp0 = t0;
    let pp1 = pp0 + t1;
    let pp2 = pp1 + t2;
    let pp3 = pp2 + t3;
    let pp4 = pp3 + t4;
    let pp5 = pp4 + t5;
    let pp6 = pp5 + t6;
    let pp7 = pp6 + t7;
    let pp8 = pp7 + t8;
    let pp9 = pp8 + t9;
    let pp10 = pp9 + t10;
    let pp11 = pp10 + t11;
    let pp12 = pp11 + t12;
    let pp13 = pp12 + t13;
    let pp14 = pp13 + t14;
    let pp15 = pp14 + t15;
    let pp16 = pp15 + t16;
    let pp17 = pp16 + t17;
    let pp18 = pp17 + t18;
    let pp19 = pp18 + t19;
    let pp20 = pp19 + t20;
    let pp21 = pp20 + t21;
    let pp22 = pp21 + t22;
    let pp23 = pp22 + t23;
    let pp24 = pp23 + t24;
    let pp25 = pp24 + t25;
    let pp26 = pp25 + t26;
    let pp27 = pp26 + t27;
    let pp28 = pp27 + t28;
    let pp29 = pp28 + t29;
    let pp30 = pp29 + t30;
    let pp31 = pp30 + t31;
    let qq0 = s0;
    let q = qq0;
    lemma_mul_is_distributive_add_other_way(q, pp0, t1);
    lemma_mul_is_distributive_add_other_way(q, pp1, t2);
    lemma_mul_is_distributive_add_other_way(q, pp2, t3);
    lemma_mul_is_distributive_add_other_way(q, pp3, t4);
    lemma_mul_is_distributive_add_other_way(q, pp4, t5);
    lemma_mul_is_distributive_add_other_way(q, pp5, t6);
    lemma_mul_is_distributive_add_other_way(q, pp6, t7);
    lemma_mul_is_distributive_add_other_way(q, pp7, t8);
    lemma_mul_is_distributive_add_other_way(q, pp8, t9);
    lemma_mul_is_distributive_add_other_way(q, pp9, t10);
    lemma_mul_is_distributive_add_other_way(q, pp10, t11);
    lemma_mul_is_distributive_add_other_way(q, pp11, t12);
    lemma_mul_is_distributive_add_other_way(q, pp12, t13);
    lemma_mul_is_distributive_add_other_way(q, pp13, t14);
    lemma_mul_is_distributive_add_other_way(q, pp14, t15);
    lemma_mul_is_distributive_add_other_way(q, pp15, t16);
    lemma_mul_is_distributive_add_other_way(q, pp16, t17);
    lemma_mul_is_distributive_add_other_way(q, pp17, t18);
    lemma_mul_is_distributive_add_other_way(q, pp18, t19);
    lemma_mul_is_distributive_add_other_way(q, pp19, t20);
    lemma_mul_is_distributive_add_other_way(q, pp20, t21);
    lemma_mul_is_distributive_add_other_way(q, pp21, t22);
    lemma_mul_is_distributive_add_other_way(q, pp22, t23);
    lemma_mul_is_distributive_add_other_way(q, pp23, t24);
    lemma_mul_is_distributive_add_other_way(q, pp24, t25);
    lemma_mul_is_distributive_add_other_way(q, pp25, t26);
    lemma_mul_is_distributive_add_other_way(q, pp26, t27);
    lemma_mul_is_distributive_add_other_way(q, pp27, t28);
    lemma_mul_is_distributive_add_other_way(q, pp28, t29);
    lemma_mul_is_distributive_add_other_way(q, pp29, t30);
    lemma_mul_is_distributive_add_other_way(q, pp30, t31);
    lemma_tm(p, 324, 1, 2, 3, 4, 1, 1, 0, 1, 0, 0, 0, 0, 0, 0, 1);
    assert(t0 * s0 == (324) * mn(p, 1, 2, 3, 4, 1, 1, 1));
    assert(t0 * q == (324) * mn(p, 1, 2, 3, 4, 1, 1, 1));
    lemma_tm(p, -54, 1, 2, 3, 3, 3, 0, 0, 1, 0, 0, 0, 0, 0, 0, 1);
    assert(t1 * s0 == (-54) * mn(p, 1, 2, 3, 3, 3, 0, 1));
    assert(t1 * q == (-54) * mn(p, 1, 2, 3, 3, 3, 0, 1));
    lemma_tm(p, -486, 1, 2, 3, 3, 1, 2, 1, 1, 0, 0, 0, 0, 0, 0, 1);
    assert(t2 * s0 == (-486) * mn(p, 1, 2, 3, 3, 1, 2, 2));
    assert(t2 * q == (-486) * mn(p, 1, 2, 3, 3, 1, 2, 2));
    lemma_tm(p, 54, 1, 2, 3, 2, 3, 1, 1, 1, 0, 0, 0, 0, 0, 0, 1);
    assert(t3 * s0 == (54) * mn(p, 1, 2, 3, 2, 3, 1, 2));
    assert(t3 * q == (54) * mn(p, 1, 2, 3, 2, 3, 1, 2));
    lemma_tm(p, 162, 1, 2, 3, 2, 1, 3, 2, 1, 0, 0, 0, 0, 0, 0, 1);
    assert(t4 * s0 == (162) * mn(p, 1, 2, 3, 2, 1, 3, 3));
    assert(t4 * q == (162) * mn(p, 1, 2, 3, 2, 1, 3, 3));
    lemma_tm(p, -972, 1, 2, 3, 2, 1, 3, 0, 1, 0, 0, 0, 0, 0, 0, 1);
    assert(t5 * s0 == (-972) * mn(p, 1, 2, 3, 2, 1, 3, 1));
    assert(t5 * q == (-972) * mn(p, 1, 2, 3, 2, 1, 3, 1));
    lemma_tm(p, 378, 1, 2, 3, 1, 3, 2, 0, 1, 0, 0, 0, 0, 0, 0, 1);
    assert(t6 * s0 == (378) * mn(p, 1, 2, 3, 1, 3, 2, 1));
    assert(t6 * q == (378) * mn(p, 1, 2, 3, 1, 3, 2, 1));
    lemma_tm(p, 1134, 1, 2, 3, 1, 1, 4, 1, 1, 0, 0, 0, 0, 0, 0, 1);
    assert(t7 * s0 == (1134) * mn(p, 1, 2, 3, 1, 1, 4, 2));
    assert(t7 * q == (1134) * mn(p, 1, 2, 3, 1, 1, 4, 2));
    lemma_tm(p, -18, 1, 2, 3, 0, 5, 1, 0, 1, 0, 0, 0, 0, 0, 0, 1);
    assert(t8 * s0 == (-18) * mn(p, 1, 2, 3, 0, 5, 1, 1));
    assert(t8 * q == (-18) * mn(p, 1, 2, 3, 0, 5, 1, 1));
    lemma_tm(p, -270, 1, 2, 3, 0, 3, 3, 1, 1, 0, 0, 0, 0, 0, 0, 1);
    assert(t9 * s0 == (-270) * mn(p, 1, 2, 3, 0, 3, 3, 2));
    assert(t9 * q == (-270) * mn(p, 1, 2, 3, 0, 3, 3, 2));
    lemma_tm(p, -324, 1, 2, 3, 0, 1, 5, 2, 1, 0, 0, 0, 0, 0, 0, 1);
    assert(t10 * s0 == (-324) * mn(p, 1, 2, 3, 0, 1, 5, 3));
    assert(t10 * q == (-324) * mn(p, 1, 2, 3, 0, 1, 5, 3));
    lemma_tm(p, 81, 1, 1, 4, 4, 2, 0, 0, 1, 0, 0, 0, 0, 0, 0, 1);
    assert(t11 * s0 == (81) * mn(p, 1, 1, 4, 4, 2, 0, 1));
    assert(t11 * q == (81) * mn(p, 1, 1, 4, 4, 2, 0, 1));
    lemma_tm(p, -162, 1, 1, 4, 3, 2, 1, 1, 1, 0, 0, 0, 0, 0, 0, 1);
    assert(t12 * s0 == (-162) * mn(p, 1, 1, 4, 3, 2, 1, 2));
    assert(t12 * q == (-162) * mn(p, 1, 1, 4, 3, 2, 1, 2));
    lemma_tm(p, 81, 1, 1, 4, 2, 2, 2, 2, 1, 0, 0, 0, 0, 0, 0, 1);
    assert(t13 * s0 == (81) * mn(p, 1, 1, 4, 2, 2, 2, 3));
    assert(t13 * q == (81) * mn(p, 1, 1, 4, 2, 2, 2, 3));
    lemma_tm(p, -729, 1, 1, 4, 2, 2, 2, 0, 1, 0, 0, 0, 0, 0, 0, 1);
    assert(t14 * s0 == (-729) * mn(p, 1, 1, 4, 2, 2, 2, 1));
    assert(t14 * q == (-729) * mn(p, 1, 1, 4, 2, 2, 2, 1));
    lemma_tm(p, 108, 1, 1, 4, 1, 4, 1, 0, 1, 0, 0, 0, 0, 0, 0, 1);
    assert(t15 * s0 == (108) * mn(p, 1, 1, 4, 1, 4, 1, 1));
    assert(t15 * q == (108) * mn(p, 1, 1, 4, 1, 4, 1, 1));
    lemma_tm(p, 1134, 1, 1, 4, 1, 2, 3, 1, 1, 0, 0, 0, 0, 0, 0, 1);
    assert(t16 * s0 == (1134) * mn(p, 1, 1, 4, 1, 2, 3, 2));
    assert(t16 * q == (1134) * mn(p, 1, 1, 4, 1, 2, 3, 2));
    lemma_tm(p, -108, 1, 1, 4, 0, 4, 2, 1, 1, 0, 0, 0, 0, 0, 0, 1);
    assert(t17 * s0 == (-108) * mn(p, 1, 1, 4, 0, 4, 2, 2));
    assert(t17 * q == (-108) * mn(p, 1, 1, 4, 0, 4, 2, 2));
    lemma_tm(p, -405, 1, 1, 4, 0, 2, 4, 2, 1, 0, 0, 0, 0, 0, 0, 1);
    assert(t18 * s0 == (-405) * mn(p, 1, 1, 4, 0, 2, 4, 3));
    assert(t18 * q == (-405) * mn(p, 1, 1, 4, 0, 2, 4, 3));
    lemma_tm(p, -162, 1, 0, 5, 2, 3, 1, 0, 1, 0, 0, 0, 0, 0, 0, 1);
    assert(t19 * s0 == (-162) * mn(p, 1, 0, 5, 2, 3, 1, 1));
    assert(t19 * q == (-162) * mn(p, 1, 0, 5, 2, 3, 1, 1));
    lemma_tm(p, 324, 1, 0, 5, 1, 3, 2, 1, 1, 0, 0, 0, 0, 0, 0, 1);
    assert(t20 * s0 == (324) * mn(p, 1, 0, 5, 1, 3, 2, 2));
    assert(t20 * q == (324) * mn(p, 1, 0, 5, 1, 3, 2, 2));
    lemma_tm(p, -162, 1, 0, 5, 0, 3, 3, 2, 1, 0, 0, 0, 0, 0, 0, 1);
    assert(t21 * s0 == (-162) * mn(p, 1, 0, 5, 0, 3, 3, 3));
    assert(t21 * q == (-162) * mn(p, 1, 0, 5, 0, 3, 3, 3));
    lemma_tm(p, 1, 0, 6, 0, 0, 3, 3, 0, 1, 0, 0, 0, 0, 0, 0, 1);
    assert(t22 * s0 == (1) * mn(p, 0, 6, 0, 0, 3, 3, 1));
    assert(t22 * q == (1) * mn(p, 0, 6, 0, 0, 3, 3, 1));
    lemma_tm(p, -18, 0, 5, 1, 1, 2, 3, 0, 1, 0, 0, 0, 0, 0, 0, 1);
    assert(t23 * s0 == (-18) * mn(p, 0, 5, 1, 1, 2, 3, 1));
    assert(t23 * q == (-18) * mn(p, 0, 5, 1, 1, 2, 3, 1));
    lemma_tm(p, 3, 0, 5, 1, 0, 4, 2, 0, 1, 0, 0, 0, 0, 0, 0, 1);
    assert(t24 * s0 == (3) * mn(p, 0, 5, 1, 0, 4, 2, 1));
    assert(t24 * q == (3) * mn(p, 0, 5, 1, 0, 4, 2, 1));
    lemma_tm(p, 9, 0, 5, 1, 0, 2, 4, 1, 1, 0, 0, 0, 0, 0, 0, 1);
    assert(t25 * s0 == (9) * mn(p, 0, 5, 1, 0, 2, 4, 2));
    assert(t25 * q == (9) * mn(p, 0, 5, 1, 0, 2, 4, 2));
    lemma_tm(p, 108, 0, 4, 2, 2, 1, 3, 0, 1, 0, 0, 0, 0, 0, 0, 1);
    assert(t26 * s0 == (108) * mn(p, 0, 4, 2, 2, 1, 3, 1));
    assert(t26 * q == (108) * mn(p, 0, 4, 2, 2, 1, 3, 1));
    lemma_tm(p, -45, 0, 4, 2, 1, 3, 2, 0, 1, 0, 0, 0, 0, 0, 0, 1);
    assert(t27 * s0 == (-45) * mn(p, 0, 4, 2, 1, 3, 2, 1));
    assert(t27 * q == (-45) * mn(p, 0, 4, 2, 1, 3, 2, 1));
    lemma_tm(p, -108, 0, 4, 2, 1, 1, 4, 1, 1, 0, 0, 0, 0, 0, 0, 1);
    assert(t28 * s0 == (-108) * mn(p, 0, 4, 2, 1, 1, 4, 2));
    assert(t28 * q == (-108) * mn(p, 0, 4, 2, 1, 1, 4, 2));
    lemma_tm(p, 3, 0, 4, 2, 0, 5, 1, 0, 1, 0, 0, 0, 0, 0, 0, 1);
    assert(t29 * s0 == (3) * mn(p, 0, 4, 2, 0, 5, 1, 1));
    assert(t29 * q == (3) * mn(p, 0, 4, 2, 0, 5, 1, 1));
    lemma_tm(p, 27, 0, 4, 2, 0, 3, 3, 1, 1, 0, 0, 0, 0, 0, 0, 1);
    assert(t30 * s0 == (27) * mn(p, 0, 4, 2, 0, 3, 3, 2));
    assert(t30 * q == (27) * mn(p, 0, 4, 2, 0, 3, 3, 2));
    lemma_tm(p, 27, 0, 4, 2, 0, 1, 5, 2, 1, 0, 0, 0, 0, 0, 0, 1);
    assert(t31 * s0 == (27) * mn(p, 0, 4, 2, 0, 1, 5, 3));
    assert(t31 * q == (27) * mn(p, 0, 4, 2, 0, 1, 5, 3));
    assert(pp31 * q == ((((((324) * mn(p, 1, 2, 3, 4, 1, 1, 1) + (-54) * mn(p, 1, 2, 3, 3, 3, 0, 1)) + ((-486) * mn(p, 1, 2, 3, 3, 1, 2, 2) + (54) * mn(p, 1, 2, 3, 2, 3, 1, 2))) + (((162) * mn(p, 1, 2, 3, 2, 1, 3, 3) + (-972) * mn(p, 1, 2, 3, 2, 1, 3, 1)) + ((378) * mn(p, 1, 2, 3, 1, 3, 2, 1) + (1134) * mn(p, 1, 2, 3, 1, 1, 4, 2)))) + ((((-18) * mn(p, 1, 2, 3, 0, 5, 1, 1) + (-270) * mn(p, 1, 2, 3, 0, 3, 3, 2)) + ((-324) * mn(p, 1, 2, 3, 0, 1, 5, 3) + (81) * mn(p, 1, 1, 4, 4, 2, 0, 1))) + (((-162) * mn(p, 1, 1, 4, 3, 2, 1, 2) + (81) * mn(p, 1, 1, 4, 2, 2, 2, 3)) + ((-729) * mn(p, 1, 1, 4, 2, 2, 2, 1) + (108) * mn(p, 1, 1, 4, 1, 4, 1, 1))))) + (((((1134) * mn(p, 1, 1, 4, 1, 2, 3, 2) + (-108) * mn(p, 1, 1, 4, 0, 4, 2, 2)) + ((-405) * mn(p, 1, 1, 4, 0, 2, 4, 3) + (-162) * mn(p, 1, 0, 5, 2, 3, 1, 1))) + (((324) * mn(p, 1, 0, 5, 1, 3, 2, 2) + (-162) * mn(p, 1, 0, 5, 0, 3, 3, 3)) + ((1) * mn(p, 0, 6, 0, 0, 3, 3, 1) + (-18) * mn(p, 0, 5, 1, 1, 2, 3, 1)))) + ((((3) * mn(p, 0, 5, 1, 0, 4, 2, 1) + (9) * mn(p, 0, 5, 1, 0, 2, 4, 2)) + ((108) * mn(p, 0, 4, 2, 2, 1, 3, 1) + (-45) * mn(p, 0, 4, 2, 1, 3, 2, 1))) + (((-108) * mn(p, 0, 4, 2, 1, 1, 4, 2) + (3) * mn(p, 0, 4, 2, 0, 5, 1, 1)) + ((27) * mn(p, 0, 4, 2, 0, 3, 3, 2) + (27) * mn(p, 0, 4, 2, 0, 1, 5, 3)))))));
    assert(pp31 == ((((((324) * mn(p, 1, 2, 3, 4, 1, 1, 0) + (-54) * mn(p, 1, 2, 3, 3, 3, 0, 0)) + ((-486) * mn(p, 1, 2, 3, 3, 1, 2, 1) + (54) * mn(p, 1, 2, 3, 2, 3, 1, 1))) + (((162) * mn(p, 1, 2, 3, 2, 1, 3, 2) + (-972) * mn(p, 1, 2, 3, 2, 1, 3, 0)) + ((378) * mn(p, 1, 2, 3, 1, 3, 2, 0) + (1134) * mn(p, 1, 2, 3, 1, 1, 4, 1)))) + ((((-18) * mn(p, 1, 2, 3, 0, 5, 1, 0) + (-270) * mn(p, 1, 2, 3, 0, 3, 3, 1)) + ((-324) * mn(p, 1, 2, 3, 0, 1, 5, 2) + (81) * mn(p, 1, 1, 4, 4, 2, 0, 0))) + (((-162) * mn(p, 1, 1, 4, 3, 2, 1, 1) + (81) * mn(p, 1, 1, 4, 2, 2, 2, 2)) + ((-729) * mn(p, 1, 1, 4, 2, 2, 2, 0) + (108) * mn(p, 1, 1, 4, 1, 4, 1, 0))))) + (((((1134) * mn(p, 1, 1, 4, 1, 2, 3, 1) + (-108) * mn(p, 1, 1, 4, 0, 4, 2, 1)) + ((-405) * mn(p, 1, 1, 4, 0, 2, 4, 2) + (-162) * mn(p, 1, 0, 5, 2, 3, 1, 0))) + (((324) * mn(p, 1, 0, 5, 1, 3, 2, 1) + (-162) * mn(p, 1, 0, 5, 0, 3, 3, 2)) + ((1) * mn(p, 0, 6, 0, 0, 3, 3, 0) + (-18) * mn(p, 0, 5, 1, 1, 2, 3, 0)))) + ((((3) * mn(p, 0, 5, 1, 0, 4, 2, 0) + (9) * mn(p, 0, 5, 1, 0, 2, 4, 1)) + ((108) * mn(p, 0, 4, 2, 2, 1, 3, 0) + (-45) * mn(p, 0, 4, 2, 1, 3, 2, 0))) + (((-108) * mn(p, 0, 4, 2, 1, 1, 4, 1) + (3) * mn(p, 0, 4, 2, 0, 5, 1, 0)) + ((27) * mn(p, 0, 4, 2, 0, 3, 3, 1) + (27) * mn(p, 0, 4, 2, 0, 1, 5, 2)))))));
    assert(q == (1) * mn(p, 0, 0, 0, 0, 0, 0, 1));
}

#[verifier::rlimit(100)]
proof fn acb_prod21_c4(p: Pt)
    ensures
        ((((((-216) * mn(p, 0, 3, 3, 3, 0, 3, 0) + ((216) * mn(p, 0, 3, 3, 2, 2, 2, 0) + (324) * mn(p, 0, 3, 3, 2, 0, 4, 1))) + (((-36) * mn(p, 0, 3, 3, 1, 4, 1, 0) + (-270) * mn(p, 0, 3, 3, 1, 2, 3, 1)) + ((-162) * mn(p, 0, 3, 3, 1, 0, 5, 2) + (1) * mn(p, 0, 3, 3, 0, 6, 0, 0)))) + ((((27) * mn(p, 0, 3, 3, 0, 4, 2, 1) + (81) * mn(p, 0, 3, 3, 0, 2, 4, 2)) + ((27) * mn(p, 0, 3, 3, 0, 0, 6, 3) + (-324) * mn(p, 0, 2, 4, 3, 1, 2, 0))) + (((135) * mn(p, 0, 2, 4, 2, 3, 1, 0) + (648) * mn(p, 0, 2, 4, 2, 1, 3, 1)) + ((-9) * mn(p, 0, 2, 4, 1, 5, 0, 0) + (-216) * mn(p, 0, 2, 4, 1, 3, 2, 1))))) + ((((-405) * mn(p, 0, 2, 4, 1, 1, 4, 2) + ((9) * mn(p, 0, 2, 4, 0, 5, 1, 1) + (81) * mn(p, 0, 2, 4, 0, 3, 3, 2))) + (((81) * mn(p, 0, 2, 4, 0, 1, 5, 3) + (-162) * mn(p, 0, 1, 5, 3, 2, 1, 0)) + ((27) * mn(p, 0, 1, 5, 2, 4, 0, 0) + (405) * mn(p, 0, 1, 5, 2, 2, 2, 1)))) + ((((-54) * mn(p, 0, 1, 5, 1, 4, 1, 1) + (-324) * mn(p, 0, 1, 5, 1, 2, 3, 2)) + ((27) * mn(p, 0, 1, 5, 0, 4, 2, 2) + (81) * mn(p, 0, 1, 5, 0, 2, 4, 3))) + (((-27) * mn(p, 0, 0, 6, 3, 3, 0, 0) + (81) * mn(p, 0, 0, 6, 2, 3, 1, 1)) + ((-81) * mn(p, 0, 0, 6, 1, 3, 2, 2) + (27) * mn(p, 0, 0, 6, 0, 3, 3, 3))))))) * ((1) * mn(p, 0, 0, 0, 0, 0, 0, 1)) == (((((-216) * mn(p, 0, 3, 3, 3, 0, 3, 1) + ((216) * mn(p, 0, 3, 3, 2, 2, 2, 1) + (324) * mn(p, 0, 3, 3, 2, 0, 4, 2))) + (((-36) * mn(p, 0, 3, 3, 1, 4, 1, 1) + (-270) * mn(p, 0, 3, 3, 1, 2, 3, 2)) + ((-162) * mn(p, 0, 3, 3, 1, 0, 5, 3) + (1) * mn(p, 0, 3, 3, 0, 6, 0, 1)))) + ((((27) * mn(p, 0, 3, 3, 0, 4, 2, 2) + (81) * mn(p, 0, 3, 3, 0, 2, 4, 3)) + ((27) * mn(p, 0, 3, 3, 0, 0, 6, 4) + (-324) * mn(p, 0, 2, 4, 3, 1, 2, 1))) + (((135) * mn(p, 0, 2, 4, 2, 3, 1, 1) + (648) * mn(p, 0, 2, 4, 2, 1, 3, 2)) + ((-9) * mn(p, 0, 2, 4, 1, 5, 0, 1) + (-216) * mn(p, 0, 2, 4, 1, 3, 2, 2))))) + ((((-405) * mn(p, 0, 2, 4, 1, 1, 4, 3) + ((9) * mn(p, 0, 2, 4, 0, 5, 1, 2) + (81) * mn(p, 0, 2, 4, 0, 3, 3, 3))) + (((81) * mn(p, 0, 2, 4, 0, 1, 5, 4) + (-162) * mn(p, 0, 1, 5, 3, 2, 1, 1)) + ((27) * mn(p, 0, 1, 5, 2, 4, 0, 1) + (405) * mn(p, 0, 1, 5, 2, 2, 2, 2)))) + ((((-54) * mn(p, 0, 1, 5, 1, 4, 1, 2) + (-324) * mn(p, 0, 1, 5, 1, 2, 3, 3)) + ((27) * mn(p, 0, 1, 5, 0, 4, 2, 3) + (81) * mn(p, 0, 1, 5, 0, 2, 4, 4))) + (((-27) * mn(p, 0, 0, 6, 3, 3, 0, 1) + (81) * mn(p, 0, 0, 6, 2, 3, 1, 2)) + ((-81) * mn(p, 0, 0, 6, 1, 3, 2, 3) + (27) * mn(p, 0, 0, 6, 0, 3, 3, 4)))))),
{
    let t0 = (-216) * mn(p, 0, 3, 3, 3, 0, 3, 0);
    let t1 = (216) * mn(p, 0, 3, 3, 2, 2, 2, 0);
    let t2 = (324) * mn(p, 0, 3, 3, 2, 0, 4, 1);
    let t3 = (-36) * mn(p, 0, 3, 3, 1, 4, 1, 0);
    let t4 = (-270) * mn(p, 0, 3, 3, 1, 2, 3, 1);
    let t5 = (-162) * mn(p, 0, 3, 3, 1, 0, 5, 2);
    let t6 = (1) * mn(p, 0, 3, 3, 0, 6, 0, 0);
    let t7 = (27) * mn(p, 0, 3, 3, 0, 4, 2, 1);
    let t8 = (81) * mn(p, 0, 3, 3, 0, 2, 4, 2);
    let t9 = (27) * mn(p, 0, 3, 3, 0, 0, 6, 3);
    let t10 = (-324) * mn(p, 0, 2, 4, 3, 1, 2, 0);
    let t11 = (135) * mn(p, 0, 2, 4, 2, 3, 1, 0);
    let t12 = (648) * mn(p, 0, 2, 4, 2, 1, 3, 1);
    let t13 = (-9) * mn(p, 0, 2, 4, 1, 5, 0, 0);
    let t14 = (-216) * mn(p, 0, 2, 4, 1, 3, 2, 1);
    let t15 = (-405) * mn(p, 0, 2, 4, 1, 1, 4, 2);
    let t16 = (9) * mn(p, 0, 2, 4, 0, 5, 1, 1);
    let t17 = (81) * mn(p, 0, 2, 4, 0, 3, 3, 2);
    let t18 = (81) * mn(p, 0, 2, 4, 0, 1, 5, 3);
    let t19 = (-162) * mn(p, 0, 1, 5, 3, 2, 1, 0);
    let t20 = (27) * mn(p, 0, 1, 5, 2, 4, 0, 0);
    let t21 = (405) * mn(p, 0, 1, 5, 2, 2, 2, 1);
    let t22 = (-54) * mn(p, 0, 1, 5, 1, 4, 1, 1);
    let t23 = (-324) * mn(p, 0, 1, 5, 1, 2, 3, 2);
    let t24 = (27) * mn(p, 0, 1, 5, 0, 4, 2, 2);
    let t25 = (81) * mn(p, 0, 1, 5, 0, 2, 4, 3);
    let t26 = (-27) * mn(p, 0, 0, 6, 3, 3, 0, 0);
    let t27 = (81) * mn(p, 0, 0, 6, 2, 3, 1, 1);
    let t28 = (-81) * mn(p, 0, 0, 6, 1, 3, 2, 2);
    let t29 = (27) * mn(p, 0, 0, 6, 0, 3, 3, 3);
    let s0 = (1) * mn(p, 0, 0, 0, 0, 0, 0, 1);
    let pp0 = t0;
    let pp1 = pp0 + t1;
    let pp2 = pp1 + t2;
    let pp3 = pp2 + t3;
    let pp4 = pp3 + t4;
    let pp5 = pp4 + t5;
    let pp6 = pp5 + t6;
    let pp7 = pp6 + t7;
    let pp8 = pp7 + t8;
    let pp9 = pp8 + t9;
    let pp10 = pp9 + t10;
    let pp11 = pp10 + t11;
    let pp12 = pp11 + t12;
    let pp13 = pp12 + t13;
    let pp14 = pp13 + t14;
    let pp15 = pp14 + t15;
    let pp16 = pp15 + t16;
    let pp17 = pp16 + t17;
    let pp18 = pp17 + t18;
    let pp19 = pp18 + t19;
    let pp20 = pp19 + t20;
    let pp21 = pp20 + t21;
    let pp22 = pp21 + t22;
    let pp23 = pp22 + t23;
    let pp24 = pp23 + t24;
    let pp25 = pp24 + t25;
    let pp26 = pp25 + t26;
    let pp27 = pp26 + t27;
    let pp28 = pp27 + t28;
    let pp29 = pp28 + t29;
    let qq0 = s0;
    let q = qq0;
    lemma_mul_is_distributive_add_other_way(q, pp0, t1);
    lemma_mul_is_distributive_add_other_way(q, pp1, t2);
    lemma_mul_is_distributive_add_other_way(q, pp2, t3);
    lemma_mul_is_distributive_add_other_way(q, pp3, t4);
    lemma_mul_is_distributive_add_other_way(q, pp4, t5);
    lemma_mul_is_distributive_add_other_way(q, pp5, t6);
    lemma_mul_is_distributive_add_other_way(q, pp6, t7);
    lemma_mul_is_distributive_add_other_way(q, pp7, t8);
    lemma_mul_is_distributive_add_other_way(q, pp8, t9);
    lemma_mul_is_distributive_add_other_way(q, pp9, t10);
    lemma_mul_is_distributive_add_other_way(q, pp10, t11);
    lemma_mul_is_distributive_add_other_way(q, pp11, t12);
    lemma_mul_is_distributive_add_other_way(q, pp12, t13);
    lemma_mul_is_distributive_add_other_way(q, pp13, t14);
    lemma_mul_is_distributive_add_other_way(q, pp14, t15);
    lemma_mul_is_distributive_add_other_way(q, pp15, t16);
    lemma_mul_is_distributive_add_other_way(q, pp16, t17);
    lemma_mul_is_distributive_add_other_way(q, pp17, t18);
    lemma_mul_is_distributive_add_other_way(q, pp18, t19);
    lemma_mul_is_distributive_add_other_way(q, pp19, t20);
    lemma_mul_is_distributive_add_other_way(q, pp20, t21);
    lemma_mul_is_distributive_add_other_way(q, pp21, t22);
    lemma_mul_is_distributive_add_other_way(q, pp22, t23);
    lemma_mul_is_distributive_add_other_way(q, pp23, t24);
    lemma_mul_is_distributive_add_other_way(q, pp24, t25);
    lemma_mul_is_distributive_add_other_way(q, pp25, t26);
    lemma_mul_is_distributive_add_other_way(q, pp26, t27);
    lemma_mul_is_distributive_add_other_way(q, pp27, t28);
    lemma_mul_is_distributive_add_other_way(q, pp28, t29);
    lemma_tm(p, -216, 0, 3, 3, 3, 0, 3, 0, 1, 0, 0, 0, 0, 0, 0, 1);
    assert(t0 * s0 == (-216) * mn(p, 0, 3, 3, 3, 0, 3, 1));
    assert(t0 * q == (-216) * mn(p, 0, 3, 3, 3, 0, 3, 1));
    lemma_tm(p, 216, 0, 3, 3, 2, 2, 2, 0, 1, 0, 0, 0, 0, 0, 0, 1);
    assert(t1 * s0 == (216) * mn(p, 0, 3, 3, 2, 2, 2, 1));
    assert(t1 * q == (216) * mn(p, 0, 3, 3, 2, 2, 2, 1));
    lemma_tm(p, 324, 0, 3, 3, 2, 0, 4, 1, 1, 0, 0, 0, 0, 0, 0, 1);
    assert(t2 * s0 == (324) * mn(p, 0, 3, 3, 2, 0, 4, 2));
    assert(t2 * q == (324) * mn(p, 0, 3, 3, 2, 0, 4, 2));
    lemma_tm(p, -36, 0, 3, 3, 1, 4, 1, 0, 1, 0, 0, 0, 0, 0, 0, 1);
    assert(t3 * s0 == (-36) * mn(p, 0, 3, 3, 1, 4, 1, 1));
    assert(t3 * q == (-36) * mn(p, 0, 3, 3, 1, 4, 1, 1));
    lemma_tm(p, -270, 0, 3, 3, 1, 2, 3, 1, 1, 0, 0, 0, 0, 0, 0, 1);
    assert(t4 * s0 == (-270) * mn(p, 0, 3, 3, 1, 2, 3, 2));
    assert(t4 * q == (-270) * mn(p, 0, 3, 3, 1, 2, 3, 2));
    lemma_tm(p, -162, 0, 3, 3, 1, 0, 5, 2, 1, 0, 0, 0, 0, 0, 0, 1);
    assert(t5 * s0 == (-162) * mn(p, 0, 3, 3, 1, 0, 5, 3));
    assert(t5 * q == (-162) * mn(p, 0, 3, 3, 1, 0, 5, 3));
    lemma_tm(p, 1, 0, 3, 3, 0, 6, 0, 0, 1, 0, 0, 0, 0, 0, 0, 1);
    assert(t6 * s0 == (1) * mn(p, 0, 3, 3, 0, 6, 0, 1));
    assert(t6 * q == (1) * mn(p, 0, 3, 3, 0, 6, 0, 1));
    lemma_tm(p, 27, 0, 3, 3, 0, 4, 2, 1, 1, 0, 0, 0, 0, 0, 0, 1);
    assert(t7 * s0 == (27) * mn(p, 0, 3, 3, 0, 4, 2, 2));
    assert(t7 * q == (27) * mn(p, 0, 3, 3, 0, 4, 2, 2));
    lemma_tm(p, 81, 0, 3, 3, 0, 2, 4, 2, 1, 0, 0, 0, 0, 0, 0, 1);
    assert(t8 * s0 == (81) * mn(p, 0, 3, 3, 0, 2, 4, 3));
    assert(t8 * q == (81) * mn(p, 0, 3, 3, 0, 2, 4, 3));
    lemma_tm(p, 27, 0, 3, 3, 0, 0, 6, 3, 1, 0, 0, 0, 0, 0, 0, 1);
    assert(t9 * s0 == (27) * mn(p, 0, 3, 3, 0, 0, 6, 4));
    assert(t9 * q == (27) * mn(p, 0, 3, 3, 0, 0, 6, 4));
    lemma_tm(p, -324, 0, 2, 4, 3, 1, 2, 0, 1, 0, 0, 0, 0, 0, 0, 1);
    assert(t10 * s0 == (-324) * mn(p, 0, 2, 4, 3, 1, 2, 1));
    assert(t10 * q == (-324) * mn(p, 0, 2, 4, 3, 1, 2, 1));
    lemma_tm(p, 135, 0, 2, 4, 2, 3, 1, 0, 1, 0, 0, 0, 0, 0, 0, 1);
    assert(t11 * s0 == (135) * mn(p, 0, 2, 4, 2, 3, 1, 1));
    assert(t11 * q == (135) * mn(p, 0, 2, 4, 2, 3, 1, 1));
    lemma_tm(p, 648, 0, 2, 4, 2, 1, 3, 1, 1, 0, 0, 0, 0, 0, 0, 1);
    assert(t12 * s0 == (648) * mn(p, 0, 2, 4, 2, 1, 3, 2));
    assert(t12 * q == (648) * mn(p, 0, 2, 4, 2, 1, 3, 2));
    lemma_tm(p, -9, 0, 2, 4, 1, 5, 0, 0, 1, 0, 0, 0, 0, 0, 0, 1);
    assert(t13 * s0 == (-9) * mn(p, 0, 2, 4, 1, 5, 0, 1));
    assert(t13 * q == (-9) * mn(p, 0, 2, 4, 1, 5, 0, 1));
    lemma_tm(p, -216, 0, 2, 4, 1, 3, 2, 1, 1, 0, 0, 0, 0, 0, 0, 1);
    assert(t14 * s0 == (-216) * mn(p, 0, 2, 4, 1, 3, 2, 2));
    assert(t14 * q == (-216) * mn(p, 0, 2, 4, 1, 3, 2, 2));
    lemma_tm(p, -405, 0, 2, 4, 1, 1, 4, 2, 1, 0, 0, 0, 0, 0, 0, 1);
    assert(t15 * s0 == (-405) * mn(p, 0, 2, 4, 1, 1, 4, 3));
    assert(t15 * q == (-405) * mn(p, 0, 2, 4, 1, 1, 4, 3));
    lemma_tm(p, 9, 0, 2, 4, 0, 5, 1, 1, 1, 0, 0, 0, 0, 0, 0, 1);
    assert(t16 * s0 == (9) * mn(p, 0, 2, 4, 0, 5, 1, 2));
    assert(t16 * q == (9) * mn(p, 0, 2, 4, 0, 5, 1, 2));
    lemma_tm(p, 81, 0, 2, 4, 0, 3, 3, 2, 1, 0, 0, 0, 0, 0, 0, 1);
    assert(t17 * s0 == (81) * mn(p, 0, 2, 4, 0, 3, 3, 3));
    assert(t17 * q == (81) * mn(p, 0, 2, 4, 0, 3, 3, 3));
    lemma_tm(p, 81, 0, 2, 4, 0, 1, 5, 3, 1, 0, 0, 0, 0, 0, 0, 1);
    assert(t18 * s0 == (81) * mn(p, 0, 2, 4, 0, 1, 5, 4));
    assert(t18 * q == (81) * mn(p, 0, 2, 4, 0, 1, 5, 4));
    lemma_tm(p, -162, 0, 1, 5, 3, 2, 1, 0, 1, 0, 0, 0, 0, 0, 0, 1);
    assert(t19 * s0 == (-162) * mn(p, 0, 1, 5, 3, 2, 1, 1));
    assert(t19 * q == (-162) * mn(p, 0, 1, 5, 3, 2, 1, 1));
    lemma_tm(p, 27, 0, 1, 5, 2, 4, 0, 0, 1, 0, 0, 0, 0, 0, 0, 1);
    assert(t20 * s0 == (27) * mn(p, 0, 1, 5, 2, 4, 0, 1));
    assert(t20 * q == (27) * mn(p, 0, 1, 5, 2, 4, 0, 1));
    lemma_tm(p, 405, 0, 1, 5, 2, 2, 2, 1, 1, 0, 0, 0, 0, 0, 0, 1);
    assert(t21 * s0 == (405) * mn(p, 0, 1, 5, 2, 2, 2, 2));
    assert(t21 * q == (405) * mn(p, 0, 1, 5, 2, 2, 2, 2));
    lemma_tm(p, -54, 0, 1, 5, 1, 4, 1, 1, 1, 0, 0, 0, 0, 0, 0, 1);
    assert(t22 * s0 == (-54) * mn(p, 0, 1, 5, 1, 4, 1, 2));
    assert(t22 * q == (-54) * mn(p, 0, 1, 5, 1, 4, 1, 2));
    lemma_tm(p, -324, 0, 1, 5, 1, 2, 3, 2, 1, 0, 0, 0, 0, 0, 0, 1);
    assert(t23 * s0 == (-324) * mn(p, 0, 1, 5, 1, 2, 3, 3));
    assert(t23 * q == (-324) * mn(p, 0, 1, 5, 1, 2, 3, 3));
    lemma_tm(p, 27, 0, 1, 5, 0, 4, 2, 2, 1, 0, 0, 0, 0, 0, 0, 1);
    assert(t24 * s0 == (27) * mn(p, 0, 1, 5, 0, 4, 2, 3));
    assert(t24 * q == (27) * mn(p, 0, 1, 5, 0, 4, 2, 3));
    lemma_tm(p, 81, 0, 1, 5, 0, 2, 4, 3, 1, 0, 0, 0, 0, 0, 0, 1);
    assert(t25 * s0 == (81) * mn(p, 0, 1, 5, 0, 2, 4, 4));
    assert(t25 * q == (81) * mn(p, 0, 1, 5, 0, 2, 4, 4));
    lemma_tm(p, -27, 0, 0, 6, 3, 3, 0, 0, 1, 0, 0, 0, 0, 0, 0, 1);
    assert(t26 * s0 == (-27) * mn(p, 0, 0, 6, 3, 3, 0, 1));
    assert(t26 * q == (-27) * mn(p, 0, 0, 6, 3, 3, 0, 1));
    lemma_tm(p, 81, 0, 0, 6, 2, 3, 1, 1, 1, 0, 0, 0, 0, 0, 0, 1);
    assert(t27 * s0 == (81) * mn(p, 0, 0, 6, 2, 3, 1, 2));
    assert(t27 * q == (81) * mn(p, 0, 0, 6, 2, 3, 1, 2));
    lemma_tm(p, -81, 0, 0, 6, 1, 3, 2, 2, 1, 0, 0, 0, 0, 0, 0, 1);
    assert(t28 * s0 == (-81) * mn(p, 0, 0, 6, 1, 3, 2, 3));
    assert(t28 * q == (-81) * mn(p, 0, 0, 6, 1, 3, 2, 3));
    lemma_tm(p, 27, 0, 0, 6, 0, 3, 3, 3, 1, 0, 0, 0, 0, 0, 0, 1);
    assert(t29 * s0 == (27) * mn(p, 0, 0, 6, 0, 3, 3, 4));
    assert(t29 * q == (27) * mn(p, 0, 0, 6, 0, 3, 3, 4));
    assert(pp29 * q == (((((-216) * mn(p, 0, 3, 3, 3, 0, 3, 1) + ((216) * mn(p, 0, 3, 3, 2, 2, 2, 1) + (324) * mn(p, 0, 3, 3, 2, 0, 4, 2))) + (((-36) * mn(p, 0, 3, 3, 1, 4, 1, 1) + (-270) * mn(p, 0, 3, 3, 1, 2, 3, 2)) + ((-162) * mn(p, 0, 3, 3, 1, 0, 5, 3) + (1) * mn(p, 0, 3, 3, 0, 6, 0, 1)))) + ((((27) * mn(p, 0, 3, 3, 0, 4, 2, 2) + (81) * mn(p, 0, 3, 3, 0, 2, 4, 3)) + ((27) * mn(p, 0, 3, 3, 0, 0, 6, 4) + (-324) * mn(p, 0, 2, 4, 3, 1, 2, 1))) + (((135) * mn(p, 0, 2, 4, 2, 3, 1, 1) + (648) * mn(p, 0, 2, 4, 2, 1, 3, 2)) + ((-9) * mn(p, 0, 2, 4, 1, 5, 0, 1) + (-216) * mn(p, 0, 2, 4, 1, 3, 2, 2))))) + ((((-405) * mn(p, 0, 2, 4, 1, 1, 4, 3) + ((9) * mn(p, 0, 2, 4, 0, 5, 1, 2) + (81) * mn(p, 0, 2, 4, 0, 3, 3, 3))) + (((81) * mn(p, 0, 2, 4, 0, 1, 5, 4) + (-162) * mn(p, 0, 1, 5, 3, 2, 1, 1)) + ((27) * mn(p, 0, 1, 5, 2, 4, 0, 1) + (405) * mn(p, 0, 1, 5, 2, 2, 2, 2)))) + ((((-54) * mn(p, 0, 1, 5, 1, 4, 1, 2) + (-324) * mn(p, 0, 1, 5, 1, 2, 3, 3)) + ((27) * mn(p, 0, 1, 5, 0, 4, 2, 3) + (81) * mn(p, 0, 1, 5, 0, 2, 4, 4))) + (((-27) * mn(p, 0, 0, 6, 3, 3, 0, 1) + (81) * mn(p, 0, 0, 6, 2, 3, 1, 2)) + ((-81) * mn(p, 0, 0, 6, 1, 3, 2, 3) + (27) * mn(p, 0, 0, 6, 0, 3, 3, 4)))))));
    assert(pp29 == (((((-216) * mn(p, 0, 3, 3, 3, 0, 3, 0) + ((216) * mn(p, 0, 3, 3, 2, 2, 2, 0) + (324) * mn(p, 0, 3, 3, 2, 0, 4, 1))) + (((-36) * mn(p, 0, 3, 3, 1, 4, 1, 0) + (-270) * mn(p, 0, 3, 3, 1, 2, 3, 1)) + ((-162) * mn(p, 0, 3, 3, 1, 0, 5, 2) + (1) * mn(p, 0, 3, 3, 0, 6, 0, 0)))) + ((((27) * mn(p, 0, 3, 3, 0, 4, 2, 1) + (81) * mn(p, 0, 3, 3, 0, 2, 4, 2)) + ((27) * mn(p, 0, 3, 3, 0, 0, 6, 3) + (-324) * mn(p, 0, 2, 4, 3, 1, 2, 0))) + (((135) * mn(p, 0, 2, 4, 2, 3, 1, 0) + (648) * mn(p, 0, 2, 4, 2, 1, 3, 1)) + ((-9) * mn(p, 0, 2, 4, 1, 5, 0, 0) + (-216) * mn(p, 0, 2, 4, 1, 3, 2, 1))))) + ((((-405) * mn(p, 0, 2, 4, 1, 1, 4, 2) + ((9) * mn(p, 0, 2, 4, 0, 5, 1, 1) + (81) * mn(p, 0, 2, 4, 0, 3, 3, 2))) + (((81) * mn(p, 0, 2, 4, 0, 1, 5, 3) + (-162) * mn(p, 0, 1, 5, 3, 2, 1, 0)) + ((27) * mn(p, 0, 1, 5, 2, 4, 0, 0) + (405) * mn(p, 0, 1, 5, 2, 2, 2, 1)))) + ((((-54) * mn(p, 0, 1, 5, 1, 4, 1, 1) + (-324) * mn(p, 0, 1, 5, 1, 2, 3, 2)) + ((27) * mn(p, 0, 1, 5, 0, 4, 2, 2) + (81) * mn(p, 0, 1, 5, 0, 2, 4, 3))) + (((-27) * mn(p, 0, 0, 6, 3, 3, 0, 0) + (81) * mn(p, 0, 0, 6, 2, 3, 1, 1)) + ((-81) * mn(p, 0, 0, 6, 1, 3, 2, 2) + (27) * mn(p, 0, 0, 6, 0, 3, 3, 3)))))));
    assert(q == (1) * mn(p, 0, 0, 0, 0, 0, 0, 1));
}

#[verifier::rlimit(100)]
proof fn acc_prod0(p: Pt)
    ensures
        ((1) * mn(p, 0, 1, 0, 0, 0, 0, 0)) * ((1) * mn(p, 0, 1, 0, 0, 0, 0, 0)) == (1) * mn(p, 0, 2, 0, 0, 0, 0, 0),
{
    let c0 = (1) * mn(p, 0, 1, 0, 0, 0, 0, 0);
    let cc0 = c0;
    assert(cc0 == (1) * mn(p, 0, 1, 0, 0, 0, 0, 0));
    let q = (1) * mn(p, 0, 1, 0, 0, 0, 0, 0);
    acc_prod0_c0(p);
    assert(c0 * q == (1) * mn(p, 0, 2, 0, 0, 0, 0, 0));
    assert(cc0 * q == (1) * mn(p, 0, 2, 0, 0, 0, 0, 0));
}

#[verifier::rlimit(100)]
proof fn acc_prod0_c0(p: Pt)
    ensures
        ((1) * mn(p, 0, 1, 0, 0, 0, 0, 0)) * ((1) * mn(p, 0, 1, 0, 0, 0, 0, 0)) == (1) * mn(p, 0, 2, 0, 0, 0, 0, 0),
{
    let t0 = (1) * mn(p, 0, 1, 0, 0, 0, 0, 0);
    let s0 = (1) * mn(p, 0, 1, 0, 0, 0, 0, 0);
    let pp0 = t0;
    let qq0 = s0;
    let q = qq0;
    lemma_tm(p, 1, 0, 1, 0, 0, 0, 0, 0, 1, 0, 1, 0, 0, 0, 0, 0);
    assert(t0 * s0 == (1) * mn(p, 0, 2, 0, 0, 0, 0, 0));
    assert(t0 * q == (1) * mn(p, 0, 2, 0, 0, 0, 0, 0));
    assert(pp0 * q == (1) * mn(p, 0, 2, 0, 0, 0, 0, 0));
    assert(pp0 == (1) * mn(p, 0, 1, 0, 0, 0, 0, 0));
    assert(q == (1) * mn(p, 0, 1, 0, 0, 0, 0, 0));
}

#[verifier::rlimit(100)]
proof fn acc_prod2(p: Pt)
    ensures
        ((1) * mn(p, 0, 2, 0, 0, 0, 0, 0)) * ((1) * mn(p, 0, 0, 1, 0, 0, 0, 0)) == (1) * mn(p, 0, 2, 1, 0, 0, 0, 0),
{
    let c0 = (1) * mn(p, 0, 2, 0, 0, 0, 0, 0);
    let cc0 = c0;
    assert(cc0 == (1) * mn(p, 0, 2, 0, 0, 0, 0, 0));
    let q = (1) * mn(p, 0, 0, 1, 0, 0, 0, 0);
    acc_prod2_c0(p);
    assert(c0 * q == (1) * mn(p, 0, 2, 1, 0, 0, 0, 0));
    assert(cc0 * q == (1) * mn(p, 0, 2, 1, 0, 0, 0, 0));
}

#[verifier::rlimit(100)]
proof fn acc_prod2_c0(p: Pt)
    ensures
        ((1) * mn(p, 0, 2, 0, 0, 0, 0, 0)) * ((1) * mn(p, 0, 0, 1, 0, 0, 0, 0)) == (1) * mn(p, 0, 2, 1, 0, 0, 0, 0),
{
    let t0 = (1) * mn(p, 0, 2, 0, 0, 0, 0, 0);
    let s0 = (1) * mn(p, 0, 0, 1, 0, 0, 0, 0);
    let pp0 = t0;
    let qq0 = s0;
    let q = qq0;
    lemma_tm(p, 1, 0, 2, 0, 0, 0, 0, 0, 1, 0, 0, 1, 0, 0, 0, 0);
    assert(t0 * s0 == (1) * mn(p, 0, 2, 1, 0, 0, 0, 0));
    assert(t0 * q == (1) * mn(p, 0, 2, 1, 0, 0, 0, 0));
    assert(pp0 * q == (1) * mn(p, 0, 2, 1, 0, 0, 0, 0));
    assert(pp0 == (1) * mn(p, 0, 2, 0, 0, 0, 0, 0));
    assert(q == (1) * mn(p, 0, 0, 1, 0, 0, 0, 0));
}

#[verifier::rlimit(100)]
proof fn acc_prod4(p: Pt)
    ensures
        ((1) * mn(p, 1, 0, 0, 0, 0, 0, 0)) * ((1) * mn(p, 1, 0, 0, 0, 0, 0, 0)) == (1) * mn(p, 2, 0, 0, 0, 0, 0, 0),
{
    let c0 = (1) * mn(p, 1, 0, 0, 0, 0, 0, 0);
    let cc0 = c0;
    assert(cc0 == (1) * mn(p, 1, 0, 0, 0, 0, 0, 0));
    let q = (1) * mn(p, 1, 0, 0, 0, 0, 0, 0);
    acc_prod4_c0(p);
    assert(c0 * q == (1) * mn(p, 2, 0, 0, 0, 0, 0, 0));
    assert(cc0 * q == (1) * mn(p, 2, 0, 0, 0, 0, 0, 0));
}

#[verifier::rlimit(100)]
proof fn acc_prod4_c0(p: Pt)
    ensures
        ((1) * mn(p, 1, 0, 0, 0, 0, 0, 0)) * ((1) * mn(p, 1, 0, 0, 0, 0, 0, 0)) == (1) * mn(p, 2, 0, 0, 0, 0, 0, 0),
{
    let t0 = (1) * mn(p, 1, 0, 0, 0, 0, 0, 0);
    let s0 = (1) * mn(p, 1, 0, 0, 0, 0, 0, 0);
    let pp0 = t0;
    let qq0 = s0;
    let q = qq0;
    lemma_tm(p, 1, 1, 0, 0, 0, 0, 0, 0, 1, 1, 0, 0, 0, 0, 0, 0);
    assert(t0 * s0 == (1) * mn(p, 2, 0, 0, 0, 0, 0, 0));
    assert(t0 * q == (1) * mn(p, 2, 0, 0, 0, 0, 0, 0));
    assert(pp0 * q == (1) * mn(p, 2, 0, 0, 0, 0, 0, 0));
    assert(pp0 == (1) * mn(p, 1, 0, 0, 0, 0, 0, 0));
    assert(q == (1) * mn(p, 1, 0, 0, 0, 0, 0, 0));
}

#[verifier::rlimit(100)]
proof fn acc_prod6(p: Pt)
    ensures
        ((1) * mn(p, 2, 0, 0, 0, 0, 0, 0)) * ((1) * mn(p, 1, 0, 0, 0, 0, 0, 0)) == (1) * mn(p, 3, 0, 0, 0, 0, 0, 0),
{
    let c0 = (1) * mn(p, 2, 0, 0, 0, 0, 0, 0);
    let cc0 = c0;
    assert(cc0 == (1) * mn(p, 2, 0, 0, 0, 0, 0, 0));
    let q = (1) * mn(p, 1, 0, 0, 0, 0, 0, 0);
    acc_prod6_c0(p);
    assert(c0 * q == (1) * mn(p, 3, 0, 0, 0, 0, 0, 0));
    assert(cc0 * q == (1) * mn(p, 3, 0, 0, 0, 0, 0, 0));
}

#[verifier::rlimit(100)]
proof fn acc_prod6_c0(p: Pt)
    ensures
        ((1) * mn(p, 2, 0, 0, 0, 0, 0, 0)) * ((1) * mn(p, 1, 0, 0, 0, 0, 0, 0)) == (1) * mn(p, 3, 0, 0, 0, 0, 0, 0),
{
    let t0 = (1) * mn(p, 2, 0, 0, 0, 0, 0, 0);
    let s0 = (1) * mn(p, 1, 0, 0, 0, 0, 0, 0);
    let pp0 = t0;
    let qq0 = s0;
    let q = qq0;
    lemma_tm(p, 1, 2, 0, 0, 0, 0, 0, 0, 1, 1, 0, 0, 0, 0, 0, 0);
    assert(t0 * s0 == (1) * mn(p, 3, 0, 0, 0, 0, 0, 0));
    assert(t0 * q == (1) * mn(p, 3, 0, 0, 0, 0, 0, 0));
    assert(pp0 * q == (1) * mn(p, 3, 0, 0, 0, 0, 0, 0));
    assert(pp0 == (1) * mn(p, 2, 0, 0, 0, 0, 0, 0));
    assert(q == (1) * mn(p, 1, 0, 0, 0, 0, 0, 0));
}

#[verifier::rlimit(100)]
proof fn acc_prod8(p: Pt)
    ensures
        ((1) * mn(p, 1, 0, 0, 0, 0, 0, 0)) * ((1) * mn(p, 0, 0, 1, 0, 0, 0, 0)) == (1) * mn(p, 1, 0, 1, 0, 0, 0, 0),
{
    let c0 = (1) * mn(p, 1, 0, 0, 0, 0, 0, 0);
    let cc0 = c0;
    assert(cc0 == (1) * mn(p, 1, 0, 0, 0, 0, 0, 0));
    let q = (1) * mn(p, 0, 0, 1, 0, 0, 0, 0);
    acc_prod8_c0(p);
    assert(c0 * q == (1) * mn(p, 1, 0, 1, 0, 0, 0, 0));
    assert(cc0 * q == (1) * mn(p, 1, 0, 1, 0, 0, 0, 0));
}

#[verifier::rlimit(100)]
proof fn acc_prod8_c0(p: Pt)
    ensures
        ((1) * mn(p, 1, 0, 0, 0, 0, 0, 0)) * ((1) * mn(p, 0, 0, 1, 0, 0, 0, 0)) == (1) * mn(p, 1, 0, 1, 0, 0, 0, 0),
{
    let t0 = (1) * mn(p, 1, 0, 0, 0, 0, 0, 0);
    let s0 = (1) * mn(p, 0, 0, 1, 0, 0, 0, 0);
    let pp0 = t0;
    let qq0 = s0;
    let q = qq0;
    lemma_tm(p, 1, 1, 0, 0, 0, 0, 0, 0, 1, 0, 0, 1, 0, 0, 0, 0);
    assert(t0 * s0 == (1) * mn(p, 1, 0, 1, 0, 0, 0, 0));
    assert(t0 * q == (1) * mn(p, 1, 0, 1, 0, 0, 0, 0));
    assert(pp0 * q == (1) * mn(p, 1, 0, 1, 0, 0, 0, 0));
    assert(pp0 == (1) * mn(p, 1, 0, 0, 0, 0, 0, 0));
    assert(q == (1) * mn(p, 0, 0, 1, 0, 0, 0, 0));
}

#[verifier::rlimit(100)]
proof fn acc_prod10(p: Pt)
    ensures
        ((1) * mn(p, 1, 0, 1, 0, 0, 0, 0)) * ((1) * mn(p, 0, 0, 1, 0, 0, 0, 0)) == (1) * mn(p, 1, 0, 2, 0, 0, 0, 0),
{
    let c0 = (1) * mn(p, 1, 0, 1, 0, 0, 0, 0);
    let cc0 = c0;
    assert(cc0 == (1) * mn(p, 1, 0, 1, 0, 0, 0, 0));
    let q = (1) * mn(p, 0, 0, 1, 0, 0, 0, 0);
    acc_prod10_c0(p);
    assert(c0 * q == (1) * mn(p, 1, 0, 2, 0, 0, 0, 0));
    assert(cc0 * q == (1) * mn(p, 1, 0, 2, 0, 0, 0, 0));
}

#[verifier::rlimit(100)]
proof fn acc_prod10_c0(p: Pt)
    ensures
        ((1) * mn(p, 1, 0, 1, 0, 0, 0, 0)) * ((1) * mn(p, 0, 0, 1, 0, 0, 0, 0)) == (1) * mn(p, 1, 0, 2, 0, 0, 0, 0),
{
    let t0 = (1) * mn(p, 1, 0, 1, 0, 0, 0, 0);
    let s0 = (1) * mn(p, 0, 0, 1, 0, 0, 0, 0);
    let pp0 = t0;
    let qq0 = s0;
    let q = qq0;
    lemma_tm(p, 1, 1, 0, 1, 0, 0, 0, 0, 1, 0, 0, 1, 0, 0, 0, 0);
    assert(t0 * s0 == (1) * mn(p, 1, 0, 2, 0, 0, 0, 0));
    assert(t0 * q == (1) * mn(p, 1, 0, 2, 0, 0, 0, 0));
    assert(pp0 * q == (1) * mn(p, 1, 0, 2, 0, 0, 0, 0));
    assert(pp0 == (1) * mn(p, 1, 0, 1, 0, 0, 0, 0));
    assert(q == (1) * mn(p, 0, 0, 1, 0, 0, 0, 0));
}

#[verifier::rlimit(100)]
proof fn acc_prod12(p: Pt)
    ensures
        ((1) * mn(p, 0, 0, 1, 0, 0, 0, 0)) * ((1) * mn(p, 0, 0, 1, 0, 0, 0, 0)) == (1) * mn(p, 0, 0, 2, 0, 0, 0, 0),
{
    let c0 = (1) * mn(p, 0, 0, 1, 0, 0, 0, 0);
    let cc0 = c0;
    assert(cc0 == (1) * mn(p, 0, 0, 1, 0, 0, 0, 0));
    let q = (1) * mn(p, 0, 0, 1, 0, 0, 0, 0);
    acc_prod12_c0(p);
    assert(c0 * q == (1) * mn(p, 0, 0, 2, 0, 0, 0, 0));
    assert(cc0 * q == (1) * mn(p, 0, 0, 2, 0, 0, 0, 0));
}

#[verifier::rlimit(100)]
proof fn acc_prod12_c0(p: Pt)
    ensures
        ((1) * mn(p, 0, 0, 1, 0, 0, 0, 0)) * ((1) * mn(p, 0, 0, 1, 0, 0, 0, 0)) == (1) * mn(p, 0, 0, 2, 0, 0, 0, 0),
{
    let t0 = (1) * mn(p, 0, 0, 1, 0, 0, 0, 0);
    let s0 = (1) * mn(p, 0, 0, 1, 0, 0, 0, 0);
    let pp0 = t0;
    let qq0 = s0;
    let q = qq0;
    lemma_tm(p, 1, 0, 0, 1, 0, 0, 0, 0, 1, 0, 0, 1, 0, 0, 0, 0);
    assert(t0 * s0 == (1) * mn(p, 0, 0, 2, 0, 0, 0, 0));
    assert(t0 * q == (1) * mn(p, 0, 0, 2, 0, 0, 0, 0));
    assert(pp0 * q == (1) * mn(p, 0, 0, 2, 0, 0, 0, 0));
    assert(pp0 == (1) * mn(p, 0, 0, 1, 0, 0, 0, 0));
    assert(q == (1) * mn(p, 0, 0, 1, 0, 0, 0, 0));
}

#[verifier::rlimit(100)]
proof fn acc_prod14(p: Pt)
    ensures
        ((1) * mn(p, 0, 0, 2, 0, 0, 0, 0)) * ((1) * mn(p, 0, 0, 1, 0, 0, 0, 0)) == (1) * mn(p, 0, 0, 3, 0, 0, 0, 0),
{
    let c0 = (1) * mn(p, 0, 0, 2, 0, 0, 0, 0);
    let cc0 = c0;
    assert(cc0 == (1) * mn(p, 0, 0, 2, 0, 0, 0, 0));
    let q = (1) * mn(p, 0, 0, 1, 0, 0, 0, 0);
    acc_prod14_c0(p);
    assert(c0 * q == (1) * mn(p, 0, 0, 3, 0, 0, 0, 0));
    assert(cc0 * q == (1) * mn(p, 0, 0, 3, 0, 0, 0, 0));
}

#[verifier::rlimit(100)]
proof fn acc_prod14_c0(p: Pt)
    ensures
        ((1) * mn(p, 0, 0, 2, 0, 0, 0, 0)) * ((1) * mn(p, 0, 0, 1, 0, 0, 0, 0)) == (1) * mn(p, 0, 0, 3, 0, 0, 0, 0),
{
    let t0 = (1) * mn(p, 0, 0, 2, 0, 0, 0, 0);
    let s0 = (1) * mn(p, 0, 0, 1, 0, 0, 0, 0);
    let pp0 = t0;
    let qq0 = s0;
    let q = qq0;
    lemma_tm(p, 1, 0, 0, 2, 0, 0, 0, 0, 1, 0, 0, 1, 0, 0, 0, 0);
    assert(t0 * s0 == (1) * mn(p, 0, 0, 3, 0, 0, 0, 0));
    assert(t0 * q == (1) * mn(p, 0, 0, 3, 0, 0, 0, 0));
    assert(pp0 * q == (1) * mn(p, 0, 0, 3, 0, 0, 0, 0));
    assert(pp0 == (1) * mn(p, 0, 0, 2, 0, 0, 0, 0));
    assert(q == (1) * mn(p, 0, 0, 1, 0, 0, 0, 0));
}

#[verifier::rlimit(100)]
proof fn acc_prod16(p: Pt)
    ensures
        ((1) * mn(p, 0, 0, 0, 0, 0, 0, 1)) * ((1) * mn(p, 0, 0, 3, 0, 0, 0, 0)) == (1) * mn(p, 0, 0, 3, 0, 0, 0, 1),
{
    let c0 = (1) * mn(p, 0, 0, 0, 0, 0, 0, 1);
    let cc0 = c0;
    assert(cc0 == (1) * mn(p, 0, 0, 0, 0, 0, 0, 1));
    let q = (1) * mn(p, 0, 0, 3, 0, 0, 0, 0);
    acc_prod16_c0(p);
    assert(c0 * q == (1) * mn(p, 0, 0, 3, 0, 0, 0, 1));
    assert(cc0 * q == (1) * mn(p, 0, 0, 3, 0, 0, 0, 1));
}

#[verifier::rlimit(100)]
proof fn acc_prod16_c0(p: Pt)
    ensures
        ((1) * mn(p, 0, 0, 0, 0, 0, 0, 1)) * ((1) * mn(p, 0, 0, 3, 0, 0, 0, 0)) == (1) * mn(p, 0, 0, 3, 0, 0, 0, 1),
{
    let t0 = (1) * mn(p, 0, 0, 0, 0, 0, 0, 1);
    let s0 = (1) * mn(p, 0, 0, 3, 0, 0, 0, 0);
    let pp0 = t0;
    let qq0 = s0;
    let q = qq0;
    lemma_tm(p, 1, 0, 0, 0, 0, 0, 0, 1, 1, 0, 0, 3, 0, 0, 0, 0);
    assert(t0 * s0 == (1) * mn(p, 0, 0, 3, 0, 0, 0, 1));
    assert(t0 * q == (1) * mn(p, 0, 0, 3, 0, 0, 0, 1));
    assert(pp0 * q == (1) * mn(p, 0, 0, 3, 0, 0, 0, 1));
    assert(pp0 == (1) * mn(p, 0, 0, 0, 0, 0, 0, 1));
    assert(q == (1) * mn(p, 0, 0, 3, 0, 0, 0, 0));
}

#[verifier::rlimit(100)]
proof fn acc_prod18(p: Pt)
    ensures
        ((1) * mn(p, 0, 0, 0, 0, 1, 0, 0)) * ((1) * mn(p, 0, 0, 0, 0, 1, 0, 0)) == (1) * mn(p, 0, 0, 0, 0, 2, 0, 0),
{
    let c0 = (1) * mn(p, 0, 0, 0, 0, 1, 0, 0);
    let cc0 = c0;
    assert(cc0 == (1) * mn(p, 0, 0, 0, 0, 1, 0, 0));
    let q = (1) * mn(p, 0, 0, 0, 0, 1, 0, 0);
    acc_prod18_c0(p);
    assert(c0 * q == (1) * mn(p, 0, 0, 0, 0, 2, 0, 0));
    assert(cc0 * q == (1) * mn(p, 0, 0, 0, 0, 2, 0, 0));
}

#[verifier::rlimit(100)]
proof fn acc_prod18_c0(p: Pt)
    ensures
        ((1) * mn(p, 0, 0, 0, 0, 1, 0, 0)) * ((1) * mn(p, 0, 0, 0, 0, 1, 0, 0)) == (1) * mn(p, 0, 0, 0, 0, 2, 0, 0),
{
    let t0 = (1) * mn(p, 0, 0, 0, 0, 1, 0, 0);
    let s0 = (1) * mn(p, 0, 0, 0, 0, 1, 0, 0);
    let pp0 = t0;
    let qq0 = s0;
    let q = qq0;
    lemma_tm(p, 1, 0, 0, 0, 0, 1, 0, 0, 1, 0, 0, 0, 0, 1, 0, 0);
    assert(t0 * s0 == (1) * mn(p, 0, 0, 0, 0, 2, 0, 0));
    assert(t0 * q == (1) * mn(p, 0, 0, 0, 0, 2, 0, 0));
    assert(pp0 * q == (1) * mn(p, 0, 0, 0, 0, 2, 0, 0));
    assert(pp0 == (1) * mn(p, 0, 0, 0, 0, 1, 0, 0));
    assert(q == (1) * mn(p, 0, 0, 0, 0, 1, 0, 0));
}

#[verifier::rlimit(100)]
proof fn acc_prod20(p: Pt)
    ensures
        ((1) * mn(p, 0, 0, 0, 0, 2, 0, 0)) * ((1) * mn(p, 0, 0, 0, 0, 0, 1, 0)) == (1) * mn(p, 0, 0, 0, 0, 2, 1, 0),
{
    let c0 = (1) * mn(p, 0, 0, 0, 0, 2, 0, 0);
    let cc0 = c0;
    assert(cc0 == (1) * mn(p, 0, 0, 0, 0, 2, 0, 0));
    let q = (1) * mn(p, 0, 0, 0, 0, 0, 1, 0);
    acc_prod20_c0(p);
    assert(c0 * q == (1) * mn(p, 0, 0, 0, 0, 2, 1, 0));
    assert(cc0 * q == (1) * mn(p, 0, 0, 0, 0, 2, 1, 0));
}

#[verifier::rlimit(100)]
proof fn acc_prod20_c0(p: Pt)
    ensures
        ((1) * mn(p, 0, 0, 0, 0, 2, 0, 0)) * ((1) * mn(p, 0, 0, 0, 0, 0, 1, 0)) == (1) * mn(p, 0, 0, 0, 0, 2, 1, 0),
{
    let t0 = (1) * mn(p, 0, 0, 0, 0, 2, 0, 0);
    let s0 = (1) * mn(p, 0, 0, 0, 0, 0, 1, 0);
    let pp0 = t0;
    let qq0 = s0;
    let q = qq0;
    lemma_tm(p, 1, 0, 0, 0, 0, 2, 0, 0, 1, 0, 0, 0, 0, 0, 1, 0);
    assert(t0 * s0 == (1) * mn(p, 0, 0, 0, 0, 2, 1, 0));
    assert(t0 * q == (1) * mn(p, 0, 0, 0, 0, 2, 1, 0));
    assert(pp0 * q == (1) * mn(p, 0, 0, 0, 0, 2, 1, 0));
    assert(pp0 == (1) * mn(p, 0, 0, 0, 0, 2, 0, 0));
    assert(q == (1) * mn(p, 0, 0, 0, 0, 0, 1, 0));
}

#[verifier::rlimit(100)]
proof fn acc_prod22(p: Pt)
    ensures
        ((1) * mn(p, 0, 0, 0, 1, 0, 0, 0)) * ((1) * mn(p, 0, 0, 0, 1, 0, 0, 0)) == (1) * mn(p, 0, 0, 0, 2, 0, 0, 0),
{
    let c0 = (1) * mn(p, 0, 0, 0, 1, 0, 0, 0);
    let cc0 = c0;
    assert(cc0 == (1) * mn(p, 0, 0, 0, 1, 0, 0, 0));
    let q = (1) * mn(p, 0, 0, 0, 1, 0, 0, 0);
    acc_prod22_c0(p);
    assert(c0 * q == (1) * mn(p, 0, 0, 0, 2, 0, 0, 0));
    assert(cc0 * q == (1) * mn(p, 0, 0, 0, 2, 0, 0, 0));
}

#[verifier::rlimit(100)]
proof fn acc_prod22_c0(p: Pt)
    ensures
        ((1) * mn(p, 0, 0, 0, 1, 0, 0, 0)) * ((1) * mn(p, 0, 0, 0, 1, 0, 0, 0)) == (1) * mn(p, 0, 0, 0, 2, 0, 0, 0),
{
    let t0 = (1) * mn(p, 0, 0, 0, 1, 0, 0, 0);
    let s0 = (1) * mn(p, 0, 0, 0, 1, 0, 0, 0);
    let pp0 = t0;
    let qq0 = s0;
    let q = qq0;
    lemma_tm(p, 1, 0, 0, 0, 1, 0, 0, 0, 1, 0, 0, 0, 1, 0, 0, 0);
    assert(t0 * s0 == (1) * mn(p, 0, 0, 0, 2, 0, 0, 0));
    assert(t0 * q == (1) * mn(p, 0, 0, 0, 2, 0, 0, 0));
    assert(pp0 * q == (1) * mn(p, 0, 0, 0, 2, 0, 0, 0));
    assert(pp0 == (1) * mn(p, 0, 0, 0, 1, 0, 0, 0));
    assert(q == (1) * mn(p, 0, 0, 0, 1, 0, 0, 0));
}

#[verifier::rlimit(100)]
proof fn acc_prod24(p: Pt)
    ensures
        ((1) * mn(p, 0, 0, 0, 2, 0, 0, 0)) * ((1) * mn(p, 0, 0, 0, 1, 0, 0, 0)) == (1) * mn(p, 0, 0, 0, 3, 0, 0, 0),
{
    let c0 = (1) * mn(p, 0, 0, 0, 2, 0, 0, 0);
    let cc0 = c0;
    assert(cc0 == (1) * mn(p, 0, 0, 0, 2, 0, 0, 0));
    let q = (1) * mn(p, 0, 0, 0, 1, 0, 0, 0);
    acc_prod24_c0(p);
    assert(c0 * q == (1) * mn(p, 0, 0, 0, 3, 0, 0, 0));
    assert(cc0 * q == (1) * mn(p, 0, 0, 0, 3, 0, 0, 0));
}

#[verifier::rlimit(100)]
proof fn acc_prod24_c0(p: Pt)
    ensures
        ((1) * mn(p, 0, 0, 0, 2, 0, 0, 0)) * ((1) * mn(p, 0, 0, 0, 1, 0, 0, 0)) == (1) * mn(p, 0, 0, 0, 3, 0, 0, 0),
{
    let t0 = (1) * mn(p, 0, 0, 0, 2, 0, 0, 0);
    let s0 = (1) * mn(p, 0, 0, 0, 1, 0, 0, 0);
    let pp0 = t0;
    let qq0 = s0;
    let q = qq0;
    lemma_tm(p, 1, 0, 0, 0, 2, 0, 0, 0, 1, 0, 0, 0, 1, 0, 0, 0);
    assert(t0 * s0 == (1) * mn(p, 0, 0, 0, 3, 0, 0, 0));
    assert(t0 * q == (1) * mn(p, 0, 0, 0, 3, 0, 0, 0));
    assert(pp0 * q == (1) * mn(p, 0, 0, 0, 3, 0, 0, 0));
    assert(pp0 == (1) * mn(p, 0, 0, 0, 2, 0, 0, 0));
    assert(q == (1) * mn(p, 0, 0, 0, 1, 0, 0, 0));
}

#[verifier::rlimit(100)]
proof fn acc_prod26(p: Pt)
    ensures
        ((1) * mn(p, 0, 0, 0, 1, 0, 0, 0)) * ((1) * mn(p, 0, 0, 0, 0, 0, 1, 0)) == (1) * mn(p, 0, 0, 0, 1, 0, 1, 0),
{
    let c0 = (1) * mn(p, 0, 0, 0, 1, 0, 0, 0);
    let cc0 = c0;
    assert(cc0 == (1) * mn(p, 0, 0, 0, 1, 0, 0, 0));
    let q = (1) * mn(p, 0, 0, 0, 0, 0, 1, 0);
    acc_prod26_c0(p);
    assert(c0 * q == (1) * mn(p, 0, 0, 0, 1, 0, 1, 0));
    assert(cc0 * q == (1) * mn(p, 0, 0, 0, 1, 0, 1, 0));
}

#[verifier::rlimit(100)]
proof fn acc_prod26_c0(p: Pt)
    ensures
        ((1) * mn(p, 0, 0, 0, 1, 0, 0, 0)) * ((1) * mn(p, 0, 0, 0, 0, 0, 1, 0)) == (1) * mn(p, 0, 0, 0, 1, 0, 1, 0),
{
    let t0 = (1) * mn(p, 0, 0, 0, 1, 0, 0, 0);
    let s0 = (1) * mn(p, 0, 0, 0, 0, 0, 1, 0);
    let pp0 = t0;
    let qq0 = s0;
    let q = qq0;
    lemma_tm(p, 1, 0, 0, 0, 1, 0, 0, 0, 1, 0, 0, 0, 0, 0, 1, 0);
    assert(t0 * s0 == (1) * mn(p, 0, 0, 0, 1, 0, 1, 0));
    assert(t0 * q == (1) * mn(p, 0, 0, 0, 1, 0, 1, 0));
    assert(pp0 * q == (1) * mn(p, 0, 0, 0, 1, 0, 1, 0));
    assert(pp0 == (1) * mn(p, 0, 0, 0, 1, 0, 0, 0));
    assert(q == (1) * mn(p, 0, 0, 0, 0, 0, 1, 0));
}

#[verifier::rlimit(100)]
proof fn acc_prod28(p: Pt)
    ensures
        ((1) * mn(p, 0, 0, 0, 1, 0, 1, 0)) * ((1) * mn(p, 0, 0, 0, 0, 0, 1, 0)) == (1) * mn(p, 0, 0, 0, 1, 0, 2, 0),
{
    let c0 = (1) * mn(p, 0, 0, 0, 1, 0, 1, 0);
    let cc0 = c0;
    assert(cc0 == (1) * mn(p, 0, 0, 0, 1, 0, 1, 0));
    let q = (1) * mn(p, 0, 0, 0, 0, 0, 1, 0);
    acc_prod28_c0(p);
    assert(c0 * q == (1) * mn(p, 0, 0, 0, 1, 0, 2, 0));
    assert(cc0 * q == (1) * mn(p, 0, 0, 0, 1, 0, 2, 0));
}

#[verifier::rlimit(100)]
proof fn acc_prod28_c0(p: Pt)
    ensures
        ((1) * mn(p, 0, 0, 0, 1, 0, 1, 0)) * ((1) * mn(p, 0, 0, 0, 0, 0, 1, 0)) == (1) * mn(p, 0, 0, 0, 1, 0, 2, 0),
{
    let t0 = (1) * mn(p, 0, 0, 0, 1, 0, 1, 0);
    let s0 = (1) * mn(p, 0, 0, 0, 0, 0, 1, 0);
    let pp0 = t0;
    let qq0 = s0;
    let q = qq0;
    lemma_tm(p, 1, 0, 0, 0, 1, 0, 1, 0, 1, 0, 0, 0, 0, 0, 1, 0);
    assert(t0 * s0 == (1) * mn(p, 0, 0, 0, 1, 0, 2, 0));
    assert(t0 * q == (1) * mn(p, 0, 0, 0, 1, 0, 2, 0));
    assert(pp0 * q == (1) * mn(p, 0, 0, 0, 1, 0, 2, 0));
    assert(pp0 == (1) * mn(p, 0, 0, 0, 1, 0, 1, 0));
    assert(q == (1) * mn(p, 0, 0, 0, 0, 0, 1, 0));
}

#[verifier::rlimit(100)]
proof fn acc_prod30(p: Pt)
    ensures
        ((1) * mn(p, 0, 0, 0, 0, 0, 1, 0)) * ((1) * mn(p, 0, 0, 0, 0, 0, 1, 0)) == (1) * mn(p, 0, 0, 0, 0, 0, 2, 0),
{
    let c0 = (1) * mn(p, 0, 0, 0, 0, 0, 1, 0);
    let cc0 = c0;
    assert(cc0 == (1) * mn(p, 0, 0, 0, 0, 0, 1, 0));
    let q = (1) * mn(p, 0, 0, 0, 0, 0, 1, 0);
    acc_prod30_c0(p);
    assert(c0 * q == (1) * mn(p, 0, 0, 0, 0, 0, 2, 0));
    assert(cc0 * q == (1) * mn(p, 0, 0, 0, 0, 0, 2, 0));
}

#[verifier::rlimit(100)]
proof fn acc_prod30_c0(p: Pt)
    ensures
        ((1) * mn(p, 0, 0, 0, 0, 0, 1, 0)) * ((1) * mn(p, 0, 0, 0, 0, 0, 1, 0)) == (1) * mn(p, 0, 0, 0, 0, 0, 2, 0),
{
    let t0 = (1) * mn(p, 0, 0, 0, 0, 0, 1, 0);
    let s0 = (1) * mn(p, 0, 0, 0, 0, 0, 1, 0);
    let pp0 = t0;
    let qq0 = s0;
    let q = qq0;
    lemma_tm(p, 1, 0, 0, 0, 0, 0, 1, 0, 1, 0, 0, 0, 0, 0, 1, 0);
    assert(t0 * s0 == (1) * mn(p, 0, 0, 0, 0, 0, 2, 0));
    assert(t0 * q == (1) * mn(p, 0, 0, 0, 0, 0, 2, 0));
    assert(pp0 * q == (1) * mn(p, 0, 0, 0, 0, 0, 2, 0));
    assert(pp0 == (1) * mn(p, 0, 0, 0, 0, 0, 1, 0));
    assert(q == (1) * mn(p, 0, 0, 0, 0, 0, 1, 0));
}

#[verifier::rlimit(100)]
proof fn acc_prod32(p: Pt)
    ensures
        ((1) * mn(p, 0, 0, 0, 0, 0, 2, 0)) * ((1) * mn(p, 0, 0, 0, 0, 0, 1, 0)) == (1) * mn(p, 0, 0, 0, 0, 0, 3, 0),
{
    let c0 = (1) * mn(p, 0, 0, 0, 0, 0, 2, 0);
    let cc0 = c0;
    assert(cc0 == (1) * mn(p, 0, 0, 0, 0, 0, 2, 0));
    let q = (1) * mn(p, 0, 0, 0, 0, 0, 1, 0);
    acc_prod32_c0(p);
    assert(c0 * q == (1) * mn(p, 0, 0, 0, 0, 0, 3, 0));
    assert(cc0 * q == (1) * mn(p, 0, 0, 0, 0, 0, 3, 0));
}

#[verifier::rlimit(100)]
proof fn acc_prod32_c0(p: Pt)
    ensures
        ((1) * mn(p, 0, 0, 0, 0, 0, 2, 0)) * ((1) * mn(p, 0, 0, 0, 0, 0, 1, 0)) == (1) * mn(p, 0, 0, 0, 0, 0, 3, 0),
{
    let t0 = (1) * mn(p, 0, 0, 0, 0, 0, 2, 0);
    let s0 = (1) * mn(p, 0, 0, 0, 0, 0, 1, 0);
    let pp0 = t0;
    let qq0 = s0;
    let q = qq0;
    lemma_tm(p, 1, 0, 0, 0, 0, 0, 2, 0, 1, 0, 0, 0, 0, 0, 1, 0);
    assert(t0 * s0 == (1) * mn(p, 0, 0, 0, 0, 0, 3, 0));
    assert(t0 * q == (1) * mn(p, 0, 0, 0, 0, 0, 3, 0));
    assert(pp0 * q == (1) * mn(p, 0, 0, 0, 0, 0, 3, 0));
    assert(pp0 == (1) * mn(p, 0, 0, 0, 0, 0, 2, 0));
    assert(q == (1) * mn(p, 0, 0, 0, 0, 0, 1, 0));
}

#[verifier::rlimit(100)]
proof fn acc_prod34(p: Pt)
    ensures
        ((1) * mn(p, 0, 0, 0, 0, 0, 0, 1)) * ((1) * mn(p, 0, 0, 0, 0, 0, 3, 0)) == (1) * mn(p, 0, 0, 0, 0, 0, 3, 1),
{
    let c0 = (1) * mn(p, 0, 0, 0, 0, 0, 0, 1);
    let cc0 = c0;
    assert(cc0 == (1) * mn(p, 0, 0, 0, 0, 0, 0, 1));
    let q = (1) * mn(p, 0, 0, 0, 0, 0, 3, 0);
    acc_prod34_c0(p);
    assert(c0 * q == (1) * mn(p, 0, 0, 0, 0, 0, 3, 1));
    assert(cc0 * q == (1) * mn(p, 0, 0, 0, 0, 0, 3, 1));
}

#[verifier::rlimit(100)]
proof fn acc_prod34_c0(p: Pt)
    ensures
        ((1) * mn(p, 0, 0, 0, 0, 0, 0, 1)) * ((1) * mn(p, 0, 0, 0, 0, 0, 3, 0)) == (1) * mn(p, 0, 0, 0, 0, 0, 3, 1),
{
    let t0 = (1) * mn(p, 0, 0, 0, 0, 0, 0, 1);
    let s0 = (1) * mn(p, 0, 0, 0, 0, 0, 3, 0);
    let pp0 = t0;
    let qq0 = s0;
    let q = qq0;
    lemma_tm(p, 1, 0, 0, 0, 0, 0, 0, 1, 1, 0, 0, 0, 0, 0, 3, 0);
    assert(t0 * s0 == (1) * mn(p, 0, 0, 0, 0, 0, 3, 1));
    assert(t0 * q == (1) * mn(p, 0, 0, 0, 0, 0, 3, 1));
    assert(pp0 * q == (1) * mn(p, 0, 0, 0, 0, 0, 3, 1));
    assert(pp0 == (1) * mn(p, 0, 0, 0, 0, 0, 0, 1));
    assert(q == (1) * mn(p, 0, 0, 0, 0, 0, 3, 0));
}

#[verifier::rlimit(100)]
proof fn acc_prod36(p: Pt)
    ensures
        (((((((((-243) * mn(p, 3, 0, 0, 5, 1, 0, 0) + (486) * mn(p, 3, 0, 0, 4, 1, 1, 1)) + ((27) * mn(p, 3, 0, 0, 3, 3, 0, 1) + (-243) * mn(p, 3, 0, 0, 3, 1, 2, 2))) + (((-486) * mn(p, 3, 0, 0, 3, 1, 2, 0) + (-81) * mn(p, 3, 0, 0, 2, 3, 1, 0)) + ((486) * mn(p, 3, 0, 0, 2, 1, 3, 1) + ((-243) * mn(p, 3, 0, 0, 1, 1, 4, 0) + (27) * mn(p, 3, 0, 0, 0, 3, 3, 0))))) + ((((-243) * mn(p, 2, 1, 0, 6, 0, 0, 0) + (486) * mn(p, 2, 1, 0, 5, 0, 1, 1)) + ((81) * mn(p, 2, 1, 0, 4, 2, 0, 1) + ((-243) * mn(p, 2, 1, 0, 4, 0, 2, 2) + (-243) * mn(p, 2, 1, 0, 4, 0, 2, 0)))) + (((-324) * mn(p, 2, 1, 0, 3, 2, 1, 0) + (-27) * mn(p, 2, 1, 0, 2, 4, 0, 0)) + ((243) * mn(p, 2, 1, 0, 2, 0, 4, 2) + ((243) * mn(p, 2, 1, 0, 2, 0, 4, 0) + (324) * mn(p, 2, 1, 0, 1, 2, 3, 0)))))) + (((((-486) * mn(p, 2, 1, 0, 1, 0, 5, 1) + (27) * mn(p, 2, 1, 0, 0, 4, 2, 0)) + ((-81) * mn(p, 2, 1, 0, 0, 2, 4, 1) + (243) * mn(p, 2, 1, 0, 0, 0, 6, 0))) + (((486) * mn(p, 2, 0, 1, 5, 1, 0, 1) + (-486) * mn(p, 2, 0, 1, 4, 1, 1, 2)) + ((-1458) * mn(p, 2, 0, 1, 4, 1, 1, 0) + ((-162) * mn(p, 2, 0, 1, 3, 3, 0, 0) + (1944) * mn(p, 2, 0, 1, 3, 1, 2, 1))))) + ((((-972) * mn(p, 2, 0, 1, 2, 1, 3, 0) + (486) * mn(p, 2, 0, 1, 1, 3, 2, 0)) + ((-486) * mn(p, 2, 0, 1, 1, 1, 4, 1) + ((-162) * mn(p, 2, 0, 1, 0, 3, 3, 1) + (486) * mn(p, 2, 0, 1, 0, 1, 5, 0)))) + (((81) * mn(p, 1, 2, 0, 5, 1, 0, 1) + (-486) * mn(p, 1, 2, 0, 4, 1, 1, 0)) + ((-27) * mn(p, 1, 2, 0, 3, 3, 0, 0) + ((162) * mn(p, 1, 2, 0, 3, 1, 2, 1) + (-27) * mn(p, 1, 2, 0, 2, 3, 1, 1))))))) + ((((((-81) * mn(p, 1, 2, 0, 2, 1, 3, 2) + (648) * mn(p, 1, 2, 0, 2, 1, 3, 0)) + ((189) * mn(p, 1, 2, 0, 1, 3, 2, 0) + (-243) * mn(p, 1, 2, 0, 1, 1, 4, 1))) + (((9) * mn(p, 1, 2, 0, 0, 5, 1, 0) + (-54) * mn(p, 1, 2, 0, 0, 3, 3, 1)) + ((81) * mn(p, 1, 2, 0, 0, 1, 5, 2) + ((-162) * mn(p, 1, 2, 0, 0, 1, 5, 0) + (486) * mn(p, 1, 1, 1, 6, 0, 0, 1))))) + ((((-486) * mn(p, 1, 1, 1, 5, 0, 1, 2) + (-1458) * mn(p, 1, 1, 1, 5, 0, 1, 0)) + ((-486) * mn(p, 1, 1, 1, 4, 2, 0, 0) + ((1215) * mn(p, 1, 1, 1, 4, 0, 2, 1) + (162) * mn(p, 1, 1, 1, 3, 2, 1, 1)))) + (((972) * mn(p, 1, 1, 1, 3, 0, 3, 2) + (972) * mn(p, 1, 1, 1, 3, 0, 3, 0)) + ((27) * mn(p, 1, 1, 1, 2, 4, 0, 1) + ((1944) * mn(p, 1, 1, 1, 2, 2, 2, 0) + (-243) * mn(p, 1, 1, 1, 2, 0, 4, 3)))))) + (((((-3888) * mn(p, 1, 1, 1, 2, 0, 4, 1) + (162) * mn(p, 1, 1, 1, 1, 4, 1, 0)) + ((-1458) * mn(p, 1, 1, 1, 1, 2, 3, 1) + (972) * mn(p, 1, 1, 1, 1, 0, 5, 2))) + (((2430) * mn(p, 1, 1, 1, 1, 0, 5, 0) + (-108) * mn(p, 1, 1, 1, 0, 4, 2, 1)) + ((324) * mn(p, 1, 1, 1, 0, 2, 4, 2) + ((-162) * mn(p, 1, 1, 1, 0, 2, 4, 0) + (-729) * mn(p, 1, 1, 1, 0, 0, 6, 1))))) + ((((-243) * mn(p, 1, 0, 2, 5, 1, 0, 2) + (-972) * mn(p, 1, 0, 2, 5, 1, 0, 0)) + ((2673) * mn(p, 1, 0, 2, 4, 1, 1, 1) + ((81) * mn(p, 1, 0, 2, 3, 3, 0, 1) + (-486) * mn(p, 1, 0, 2, 3, 1, 2, 2)))) + (((81) * mn(p, 1, 0, 2, 2, 3, 1, 2) + (648) * mn(p, 1, 0, 2, 2, 3, 1, 0)) + ((243) * mn(p, 1, 0, 2, 2, 1, 3, 3) + ((-4374) * mn(p, 1, 0, 2, 2, 1, 3, 1) + (-1215) * mn(p, 1, 0, 2, 1, 3, 2, 1)))))))) + (((((((729) * mn(p, 1, 0, 2, 1, 1, 4, 2) + (4860) * mn(p, 1, 0, 2, 1, 1, 4, 0)) + ((324) * mn(p, 1, 0, 2, 0, 3, 3, 2) + (-1215) * mn(p, 1, 0, 2, 0, 1, 5, 1))) + (((27) * mn(p, 0, 3, 0, 6, 0, 0, 1) + (-162) * mn(p, 0, 3, 0, 5, 0, 1, 0)) + ((-27) * mn(p, 0, 3, 0, 4, 2, 0, 0) + ((540) * mn(p, 0, 3, 0, 3, 0, 3, 0) + (162) * mn(p, 0, 3, 0, 2, 2, 2, 0))))) + ((((-405) * mn(p, 0, 3, 0, 2, 0, 4, 1) + (18) * mn(p, 0, 3, 0, 1, 4, 1, 0)) + ((-108) * mn(p, 0, 3, 0, 1, 2, 3, 1) + ((162) * mn(p, 0, 3, 0, 1, 0, 5, 2) + (-162) * mn(p, 0, 3, 0, 1, 0, 5, 0)))) + (((1) * mn(p, 0, 3, 0, 0, 6, 0, 0) + (-9) * mn(p, 0, 3, 0, 0, 4, 2, 1)) + ((27) * mn(p, 0, 3, 0, 0, 2, 4, 2) + ((-27) * mn(p, 0, 3, 0, 0, 2, 4, 0) + (-27) * mn(p, 0, 3, 0, 0, 0, 6, 3)))))) + (((((54) * mn(p, 0, 3, 0, 0, 0, 6, 1) + (-567) * mn(p, 0, 2, 1, 5, 1, 0, 0)) + ((648) * mn(p, 0, 2, 1, 4, 1, 1, 1) + (27) * mn(p, 0, 2, 1, 3, 3, 0, 1))) + (((-243) * mn(p, 0, 2, 1, 3, 1, 2, 2) + (1458) * mn(p, 0, 2, 1, 3, 1, 2, 0)) + ((459) * mn(p, 0, 2, 1, 2, 3, 1, 0) + ((-1782) * mn(p, 0, 2, 1, 2, 1, 3, 1) + (-540) * mn(p, 0, 2, 1, 1, 3, 2, 1))))) + ((((972) * mn(p, 0, 2, 1, 1, 1, 4, 2) + (-567) * mn(p, 0, 2, 1, 1, 1, 4, 0)) + ((-18) * mn(p, 0, 2, 1, 0, 5, 1, 1) + ((108) * mn(p, 0, 2, 1, 0, 3, 3, 2) + (135) * mn(p, 0, 2, 1, 0, 3, 3, 0)))) + (((-162) * mn(p, 0, 2, 1, 0, 1, 5, 3) + (162) * mn(p, 0, 2, 1, 0, 1, 5, 1)) + ((-243) * mn(p, 0, 1, 2, 6, 0, 0, 2) + ((-1215) * mn(p, 0, 1, 2, 6, 0, 0, 0) + (3402) * mn(p, 0, 1, 2, 5, 0, 1, 1))))))) + ((((((405) * mn(p, 0, 1, 2, 4, 2, 0, 1) + (-486) * mn(p, 0, 1, 2, 4, 0, 2, 2)) + ((729) * mn(p, 0, 1, 2, 4, 0, 2, 0) + (972) * mn(p, 0, 1, 2, 3, 2, 1, 0))) + (((-9720) * mn(p, 0, 1, 2, 3, 0, 3, 1) + (-27) * mn(p, 0, 1, 2, 2, 4, 0, 0)) + ((-3888) * mn(p, 0, 1, 2, 2, 2, 2, 1) + ((5346) * mn(p, 0, 1, 2, 2, 0, 4, 2) + (8991) * mn(p, 0, 1, 2, 2, 0, 4, 0))))) + ((((-324) * mn(p, 0, 1, 2, 1, 4, 1, 1) + (1944) * mn(p, 0, 1, 2, 1, 2, 3, 2)) + ((1620) * mn(p, 0, 1, 2, 1, 2, 3, 0) + ((-972) * mn(p, 0, 1, 2, 1, 0, 5, 3) + (-5346) * mn(p, 0, 1, 2, 1, 0, 5, 1)))) + (((108) * mn(p, 0, 1, 2, 0, 4, 2, 2) + (243) * mn(p, 0, 1, 2, 0, 4, 2, 0)) + ((-324) * mn(p, 0, 1, 2, 0, 2, 4, 3) + ((-405) * mn(p, 0, 1, 2, 0, 2, 4, 1) + (1215) * mn(p, 0, 1, 2, 0, 0, 6, 2)))))) + (((((-729) * mn(p, 0, 1, 2, 0, 0, 6, 0) + (1701) * mn(p, 0, 0, 3, 5, 1, 0, 1)) + ((-972) * mn(p, 0, 0, 3, 4, 1, 1, 2) + (-3402) * mn(p, 0, 0, 3, 4, 1, 1, 0))) + (((-27) * mn(p, 0, 0, 3, 3, 3, 0, 2) + (54) * mn(p, 0, 0, 3, 3, 3, 0, 0)) + ((243) * mn(p, 0, 0, 3, 3, 1, 2, 3) + ((-3402) * mn(p, 0, 0, 3, 3, 1, 2, 1) + (-1539) * mn(p, 0, 0, 3, 2, 3, 1, 1))))) + ((((3402) * mn(p, 0, 0, 3, 2, 1, 3, 2) + (10692) * mn(p, 0, 0, 3, 2, 1, 3, 0)) + ((972) * mn(p, 0, 0, 3, 1, 3, 2, 2) + ((2430) * mn(p, 0, 0, 3, 1, 3, 2, 0) + (-972) * mn(p, 0, 0, 3, 1, 1, 4, 3)))) + (((-7047) * mn(p, 0, 0, 3, 1, 1, 4, 1) + (-216) * mn(p, 0, 0, 3, 0, 3, 3, 3)) + ((-729) * mn(p, 0, 0, 3, 0, 3, 3, 1) + ((1944) * mn(p, 0, 0, 3, 0, 1, 5, 2) + (-1458) * mn(p, 0, 0, 3, 0, 1, 5, 0)))))))))) * ((((-1) * mn(p, 3, 0, 0, 0, 0, 0, 0) + (3) * mn(p, 1, 0, 2, 0, 0, 0, 0)) + ((1) * mn(p, 0, 2, 1, 0, 0, 0, 0) + (-1) * mn(p, 0, 0, 3, 0, 0, 0, 1)))) == (((((((((243) * mn(p, 6, 0, 0, 5, 1, 0, 0) + ((-486) * mn(p, 6, 0, 0, 4, 1, 1, 1) + (-27) * mn(p, 6, 0, 0, 3, 3, 0, 1))) + ((243) * mn(p, 6, 0, 0, 3, 1, 2, 2) + ((486) * mn(p, 6, 0, 0, 3, 1, 2, 0) + (81) * mn(p, 6, 0, 0, 2, 3, 1, 0)))) + (((-486) * mn(p, 6, 0, 0, 2, 1, 3, 1) + ((243) * mn(p, 6, 0, 0, 1, 1, 4, 0) + (-27) * mn(p, 6, 0, 0, 0, 3, 3, 0))) + (((243) * mn(p, 5, 1, 0, 6, 0, 0, 0) + (-486) * mn(p, 5, 1, 0, 5, 0, 1, 1)) + ((-81) * mn(p, 5, 1, 0, 4, 2, 0, 1) + (243) * mn(p, 5, 1, 0, 4, 0, 2, 2))))) + ((((243) * mn(p, 5, 1, 0, 4, 0, 2, 0) + ((324) * mn(p, 5, 1, 0, 3, 2, 1, 0) + (27) * mn(p, 5, 1, 0, 2, 4, 0, 0))) + ((-243) * mn(p, 5, 1, 0, 2, 0, 4, 2) + ((-243) * mn(p, 5, 1, 0, 2, 0, 4, 0) + (-324) * mn(p, 5, 1, 0, 1, 2, 3, 0)))) + (((486) * mn(p, 5, 1, 0, 1, 0, 5, 1) + ((-27) * mn(p, 5, 1, 0, 0, 4, 2, 0) + (81) * mn(p, 5, 1, 0, 0, 2, 4, 1))) + (((-243) * mn(p, 5, 1, 0, 0, 0, 6, 0) + (-486) * mn(p, 5, 0, 1, 5, 1, 0, 1)) + ((486) * mn(p, 5, 0, 1, 4, 1, 1, 2) + (1458) * mn(p, 5, 0, 1, 4, 1, 1, 0)))))) + (((((162) * mn(p, 5, 0, 1, 3, 3, 0, 0) + ((-1944) * mn(p, 5, 0, 1, 3, 1, 2, 1) + (972) * mn(p, 5, 0, 1, 2, 1, 3, 0))) + ((-486) * mn(p, 5, 0, 1, 1, 3, 2, 0) + ((486) * mn(p, 5, 0, 1, 1, 1, 4, 1) + (162) * mn(p, 5, 0, 1, 0, 3, 3, 1)))) + (((-486) * mn(p, 5, 0, 1, 0, 1, 5, 0) + ((-81) * mn(p, 4, 2, 0, 5, 1, 0, 1) + (486) * mn(p, 4, 2, 0, 4, 1, 1, 0))) + (((27) * mn(p, 4, 2, 0, 3, 3, 0, 0) + (-162) * mn(p, 4, 2, 0, 3, 1, 2, 1)) + ((27) * mn(p, 4, 2, 0, 2, 3, 1, 1) + (81) * mn(p, 4, 2, 0, 2, 1, 3, 2))))) + ((((-648) * mn(p, 4, 2, 0, 2, 1, 3, 0) + ((-189) * mn(p, 4, 2, 0, 1, 3, 2, 0) + (243) * mn(p, 4, 2, 0, 1, 1, 4, 1))) + (((-9) * mn(p, 4, 2, 0, 0, 5, 1, 0) + (54) * mn(p, 4, 2, 0, 0, 3, 3, 1)) + ((-81) * mn(p, 4, 2, 0, 0, 1, 5, 2) + (162) * mn(p, 4, 2, 0, 0, 1, 5, 0)))) + (((-486) * mn(p, 4, 1, 1, 6, 0, 0, 1) + ((486) * mn(p, 4, 1, 1, 5, 0, 1, 2) + (1458) * mn(p, 4, 1, 1, 5, 0, 1, 0))) + (((486) * mn(p, 4, 1, 1, 4, 2, 0, 0) + (-1215) * mn(p, 4, 1, 1, 4, 0, 2, 1)) + ((-162) * mn(p, 4, 1, 1, 3, 2, 1, 1) + (-972) * mn(p, 4, 1, 1, 3, 0, 3, 2))))))) + ((((((-972) * mn(p, 4, 1, 1, 3, 0, 3, 0) + ((-27) * mn(p, 4, 1, 1, 2, 4, 0, 1) + (-1944) * mn(p, 4, 1, 1, 2, 2, 2, 0))) + ((243) * mn(p, 4, 1, 1, 2, 0, 4, 3) + ((3888) * mn(p, 4, 1, 1, 2, 0, 4, 1) + (-162) * mn(p, 4, 1, 1, 1, 4, 1, 0)))) + (((1458) * mn(p, 4, 1, 1, 1, 2, 3, 1) + ((-972) * mn(p, 4, 1, 1, 1, 0, 5, 2) + (-2430) * mn(p, 4, 1, 1, 1, 0, 5, 0))) + (((108) * mn(p, 4, 1, 1, 0, 4, 2, 1) + (-324) * mn(p, 4, 1, 1, 0, 2, 4, 2)) + ((162) * mn(p, 4, 1, 1, 0, 2, 4, 0) + (729) * mn(p, 4, 1, 1, 0, 0, 6, 1))))) + ((((243) * mn(p, 4, 0, 2, 5, 1, 0, 2) + ((243) * mn(p, 4, 0, 2, 5, 1, 0, 0) + (-1215) * mn(p, 4, 0, 2, 4, 1, 1, 1))) + (((-243) * mn(p, 4, 0, 2, 3, 1, 2, 2) + (-1458) * mn(p, 4, 0, 2, 3, 1, 2, 0)) + ((-81) * mn(p, 4, 0, 2, 2, 3, 1, 2) + (-891) * mn(p, 4, 0, 2, 2, 3, 1, 0)))) + (((-243) * mn(p, 4, 0, 2, 2, 1, 3, 3) + ((5832) * mn(p, 4, 0, 2, 2, 1, 3, 1) + (1215) * mn(p, 4, 0, 2, 1, 3, 2, 1))) + (((-729) * mn(p, 4, 0, 2, 1, 1, 4, 2) + (-5589) * mn(p, 4, 0, 2, 1, 1, 4, 0)) + ((-324) * mn(p, 4, 0, 2, 0, 3, 3, 2) + (81) * mn(p, 4, 0, 2, 0, 3, 3, 0)))))) + (((((1215) * mn(p, 4, 0, 2, 0, 1, 5, 1) + ((-27) * mn(p, 3, 3, 0, 6, 0, 0, 1) + (162) * mn(p, 3, 3, 0, 5, 0, 1, 0))) + ((27) * mn(p, 3, 3, 0, 4, 2, 0, 0) + ((-540) * mn(p, 3, 3, 0, 3, 0, 3, 0) + (-162) * mn(p, 3, 3, 0, 2, 2, 2, 0)))) + (((405) * mn(p, 3, 3, 0, 2, 0, 4, 1) + ((-18) * mn(p, 3, 3, 0, 1, 4, 1, 0) + (108) * mn(p, 3, 3, 0, 1, 2, 3, 1))) + (((-162) * mn(p, 3, 3, 0, 1, 0, 5, 2) + (162) * mn(p, 3, 3, 0, 1, 0, 5, 0)) + ((-1) * mn(p, 3, 3, 0, 0, 6, 0, 0) + (9) * mn(p, 3, 3, 0, 0, 4, 2, 1))))) + ((((-27) * mn(p, 3, 3, 0, 0, 2, 4, 2) + ((27) * mn(p, 3, 3, 0, 0, 2, 4, 0) + (27) * mn(p, 3, 3, 0, 0, 0, 6, 3))) + (((-54) * mn(p, 3, 3, 0, 0, 0, 6, 1) + (324) * mn(p, 3, 2, 1, 5, 1, 0, 0)) + ((-162) * mn(p, 3, 2, 1, 4, 1, 1, 1) + (-1944) * mn(p, 3, 2, 1, 3, 1, 2, 0)))) + (((-540) * mn(p, 3, 2, 1, 2, 3, 1, 0) + ((2268) * mn(p, 3, 2, 1, 2, 1, 3, 1) + (540) * mn(p, 3, 2, 1, 1, 3, 2, 1))) + (((-972) * mn(p, 3, 2, 1, 1, 1, 4, 2) + (324) * mn(p, 3, 2, 1, 1, 1, 4, 0)) + ((18) * mn(p, 3, 2, 1, 0, 5, 1, 1) + (-108) * mn(p, 3, 2, 1, 0, 3, 3, 2)))))))) + (((((((-108) * mn(p, 3, 2, 1, 0, 3, 3, 0) + ((162) * mn(p, 3, 2, 1, 0, 1, 5, 3) + (-162) * mn(p, 3, 2, 1, 0, 1, 5, 1))) + ((243) * mn(p, 3, 1, 2, 6, 0, 0, 2) + ((486) * mn(p, 3, 1, 2, 6, 0, 0, 0) + (-1944) * mn(p, 3, 1, 2, 5, 0, 1, 1)))) + (((-162) * mn(p, 3, 1, 2, 4, 2, 0, 1) + ((-243) * mn(p, 3, 1, 2, 4, 0, 2, 2) + (-1458) * mn(p, 3, 1, 2, 4, 0, 2, 0))) + (((-1944) * mn(p, 3, 1, 2, 3, 2, 1, 0) + (9720) * mn(p, 3, 1, 2, 3, 0, 3, 1)) + ((-54) * mn(p, 3, 1, 2, 2, 4, 0, 0) + (3888) * mn(p, 3, 1, 2, 2, 2, 2, 1))))) + ((((-4617) * mn(p, 3, 1, 2, 2, 0, 4, 2) + ((-8262) * mn(p, 3, 1, 2, 2, 0, 4, 0) + (324) * mn(p, 3, 1, 2, 1, 4, 1, 1))) + (((-1944) * mn(p, 3, 1, 2, 1, 2, 3, 2) + (-648) * mn(p, 3, 1, 2, 1, 2, 3, 0)) + ((972) * mn(p, 3, 1, 2, 1, 0, 5, 3) + (3888) * mn(p, 3, 1, 2, 1, 0, 5, 1)))) + (((-108) * mn(p, 3, 1, 2, 0, 4, 2, 2) + ((-162) * mn(p, 3, 1, 2, 0, 4, 2, 0) + (324) * mn(p, 3, 1, 2, 0, 2, 4, 3))) + (((162) * mn(p, 3, 1, 2, 0, 2, 4, 1) + (-1215) * mn(p, 3, 1, 2, 0, 0, 6, 2)) + ((1458) * mn(p, 3, 1, 2, 0, 0, 6, 0) + (-972) * mn(p, 3, 0, 3, 4, 1, 1, 2)))))) + (((((-972) * mn(p, 3, 0, 3, 4, 1, 1, 0) + ((-540) * mn(p, 3, 0, 3, 3, 3, 0, 0) + (9720) * mn(p, 3, 0, 3, 3, 1, 2, 1))) + ((1620) * mn(p, 3, 0, 3, 2, 3, 1, 1) + ((-3888) * mn(p, 3, 0, 3, 2, 1, 3, 2) + (-13608) * mn(p, 3, 0, 3, 2, 1, 3, 0)))) + (((-972) * mn(p, 3, 0, 3, 1, 3, 2, 2) + ((-972) * mn(p, 3, 0, 3, 1, 3, 2, 0) + (972) * mn(p, 3, 0, 3, 1, 1, 4, 3))) + (((5832) * mn(p, 3, 0, 3, 1, 1, 4, 1) + (216) * mn(p, 3, 0, 3, 0, 3, 3, 3)) + ((216) * mn(p, 3, 0, 3, 0, 3, 3, 1) + (-1944) * mn(p, 3, 0, 3, 0, 1, 5, 2))))) + ((((2916) * mn(p, 3, 0, 3, 0, 1, 5, 0) + ((-243) * mn(p, 2, 3, 1, 6, 0, 0, 0) + (486) * mn(p, 2, 3, 1, 5, 0, 1, 1))) + (((81) * mn(p, 2, 3, 1, 4, 2, 0, 1) + (-243) * mn(p, 2, 3, 1, 4, 0, 2, 2)) + ((-243) * mn(p, 2, 3, 1, 4, 0, 2, 0) + (-324) * mn(p, 2, 3, 1, 3, 2, 1, 0)))) + (((-27) * mn(p, 2, 3, 1, 2, 4, 0, 0) + ((243) * mn(p, 2, 3, 1, 2, 0, 4, 2) + (243) * mn(p, 2, 3, 1, 2, 0, 4, 0))) + (((324) * mn(p, 2, 3, 1, 1, 2, 3, 0) + (-486) * mn(p, 2, 3, 1, 1, 0, 5, 1)) + ((27) * mn(p, 2, 3, 1, 0, 4, 2, 0) + (-81) * mn(p, 2, 3, 1, 0, 2, 4, 1))))))) + ((((((243) * mn(p, 2, 3, 1, 0, 0, 6, 0) + ((729) * mn(p, 2, 2, 2, 5, 1, 0, 1) + (-486) * mn(p, 2, 2, 2, 4, 1, 1, 2))) + ((-2916) * mn(p, 2, 2, 2, 4, 1, 1, 0) + ((-243) * mn(p, 2, 2, 2, 3, 3, 0, 0) + (2430) * mn(p, 2, 2, 2, 3, 1, 2, 1)))) + (((-81) * mn(p, 2, 2, 2, 2, 3, 1, 1) + ((-243) * mn(p, 2, 2, 2, 2, 1, 3, 2) + (972) * mn(p, 2, 2, 2, 2, 1, 3, 0))) + (((1053) * mn(p, 2, 2, 2, 1, 3, 2, 0) + (-1215) * mn(p, 2, 2, 2, 1, 1, 4, 1)) + ((27) * mn(p, 2, 2, 2, 0, 5, 1, 0) + (-324) * mn(p, 2, 2, 2, 0, 3, 3, 1))))) + ((((243) * mn(p, 2, 2, 2, 0, 1, 5, 2) + ((1701) * mn(p, 2, 1, 3, 6, 0, 0, 1) + (-1944) * mn(p, 2, 1, 3, 5, 0, 1, 2))) + (((-4374) * mn(p, 2, 1, 3, 5, 0, 1, 0) + (-81) * mn(p, 2, 1, 3, 4, 2, 0, 2)) + ((-1458) * mn(p, 2, 1, 3, 4, 2, 0, 0) + (243) * mn(p, 2, 1, 3, 4, 0, 2, 3)))) + (((3888) * mn(p, 2, 1, 3, 4, 0, 2, 1) + ((810) * mn(p, 2, 1, 3, 3, 2, 1, 1) + (2916) * mn(p, 2, 1, 3, 3, 0, 3, 2))) + (((2916) * mn(p, 2, 1, 3, 3, 0, 3, 0) + (108) * mn(p, 2, 1, 3, 2, 4, 0, 1)) + ((5832) * mn(p, 2, 1, 3, 2, 2, 2, 0) + (-972) * mn(p, 2, 1, 3, 2, 0, 4, 3)))))) + (((((-11907) * mn(p, 2, 1, 3, 2, 0, 4, 1) + ((486) * mn(p, 2, 1, 3, 1, 4, 1, 0) + (-4698) * mn(p, 2, 1, 3, 1, 2, 3, 1))) + ((3402) * mn(p, 2, 1, 3, 1, 0, 5, 2) + ((7290) * mn(p, 2, 1, 3, 1, 0, 5, 0) + (-351) * mn(p, 2, 1, 3, 0, 4, 2, 1)))) + (((1053) * mn(p, 2, 1, 3, 0, 2, 4, 2) + ((-486) * mn(p, 2, 1, 3, 0, 2, 4, 0) + (-2430) * mn(p, 2, 1, 3, 0, 0, 6, 1))) + (((-1215) * mn(p, 2, 0, 4, 5, 1, 0, 2) + (-2916) * mn(p, 2, 0, 4, 5, 1, 0, 0)) + ((486) * mn(p, 2, 0, 4, 4, 1, 1, 3) + (9477) * mn(p, 2, 0, 4, 4, 1, 1, 1))))) + ((((405) * mn(p, 2, 0, 4, 3, 3, 0, 1) + ((-3402) * mn(p, 2, 0, 4, 3, 1, 2, 2) + (243) * mn(p, 2, 0, 4, 2, 3, 1, 2))) + (((1944) * mn(p, 2, 0, 4, 2, 3, 1, 0) + (729) * mn(p, 2, 0, 4, 2, 1, 3, 3)) + ((-12150) * mn(p, 2, 0, 4, 2, 1, 3, 1) + (-4131) * mn(p, 2, 0, 4, 1, 3, 2, 1)))) + (((2673) * mn(p, 2, 0, 4, 1, 1, 4, 2) + ((14580) * mn(p, 2, 0, 4, 1, 1, 4, 0) + (1134) * mn(p, 2, 0, 4, 0, 3, 3, 2))) + (((-4131) * mn(p, 2, 0, 4, 0, 1, 5, 1) + (81) * mn(p, 1, 4, 1, 5, 1, 0, 1)) + ((-486) * mn(p, 1, 4, 1, 4, 1, 1, 0) + (-27) * mn(p, 1, 4, 1, 3, 3, 0, 0))))))))) + ((((((((162) * mn(p, 1, 4, 1, 3, 1, 2, 1) + ((-27) * mn(p, 1, 4, 1, 2, 3, 1, 1) + (-81) * mn(p, 1, 4, 1, 2, 1, 3, 2))) + ((648) * mn(p, 1, 4, 1, 2, 1, 3, 0) + ((189) * mn(p, 1, 4, 1, 1, 3, 2, 0) + (-243) * mn(p, 1, 4, 1, 1, 1, 4, 1)))) + (((9) * mn(p, 1, 4, 1, 0, 5, 1, 0) + ((-54) * mn(p, 1, 4, 1, 0, 3, 3, 1) + (81) * mn(p, 1, 4, 1, 0, 1, 5, 2))) + (((-162) * mn(p, 1, 4, 1, 0, 1, 5, 0) + (567) * mn(p, 1, 3, 2, 6, 0, 0, 1)) + ((-486) * mn(p, 1, 3, 2, 5, 0, 1, 2) + (-1944) * mn(p, 1, 3, 2, 5, 0, 1, 0))))) + ((((-567) * mn(p, 1, 3, 2, 4, 2, 0, 0) + ((1215) * mn(p, 1, 3, 2, 4, 0, 2, 1) + (162) * mn(p, 1, 3, 2, 3, 2, 1, 1))) + (((972) * mn(p, 1, 3, 2, 3, 0, 3, 2) + (2592) * mn(p, 1, 3, 2, 3, 0, 3, 0)) + ((27) * mn(p, 1, 3, 2, 2, 4, 0, 1) + (2430) * mn(p, 1, 3, 2, 2, 2, 2, 0)))) + (((-243) * mn(p, 1, 3, 2, 2, 0, 4, 3) + ((-5103) * mn(p, 1, 3, 2, 2, 0, 4, 1) + (216) * mn(p, 1, 3, 2, 1, 4, 1, 0))) + (((-1782) * mn(p, 1, 3, 2, 1, 2, 3, 1) + (1458) * mn(p, 1, 3, 2, 1, 0, 5, 2)) + ((1944) * mn(p, 1, 3, 2, 1, 0, 5, 0) + (3) * mn(p, 1, 3, 2, 0, 6, 0, 0)))))) + (((((-135) * mn(p, 1, 3, 2, 0, 4, 2, 1) + ((405) * mn(p, 1, 3, 2, 0, 2, 4, 2) + (-243) * mn(p, 1, 3, 2, 0, 2, 4, 0))) + ((-81) * mn(p, 1, 3, 2, 0, 0, 6, 3) + ((-567) * mn(p, 1, 3, 2, 0, 0, 6, 1) + (-324) * mn(p, 1, 2, 3, 5, 1, 0, 2)))) + (((-2673) * mn(p, 1, 2, 3, 5, 1, 0, 0) + ((5103) * mn(p, 1, 2, 3, 4, 1, 1, 1) + (189) * mn(p, 1, 2, 3, 3, 3, 0, 1))) + (((-1377) * mn(p, 1, 2, 3, 3, 1, 2, 2) + (4374) * mn(p, 1, 2, 3, 3, 1, 2, 0)) + ((108) * mn(p, 1, 2, 3, 2, 3, 1, 2) + (2025) * mn(p, 1, 2, 3, 2, 3, 1, 0))))) + ((((324) * mn(p, 1, 2, 3, 2, 1, 3, 3) + ((-10368) * mn(p, 1, 2, 3, 2, 1, 3, 1) + (-3024) * mn(p, 1, 2, 3, 1, 3, 2, 1))) + (((3888) * mn(p, 1, 2, 3, 1, 1, 4, 2) + (3159) * mn(p, 1, 2, 3, 1, 1, 4, 0)) + ((-63) * mn(p, 1, 2, 3, 0, 5, 1, 1) + (702) * mn(p, 1, 2, 3, 0, 3, 3, 2)))) + (((405) * mn(p, 1, 2, 3, 0, 3, 3, 0) + ((-567) * mn(p, 1, 2, 3, 0, 1, 5, 3) + (-567) * mn(p, 1, 2, 3, 0, 1, 5, 1))) + (((-1215) * mn(p, 1, 1, 4, 6, 0, 0, 2) + (-3645) * mn(p, 1, 1, 4, 6, 0, 0, 0)) + ((486) * mn(p, 1, 1, 4, 5, 0, 1, 3) + (11664) * mn(p, 1, 1, 4, 5, 0, 1, 1))))))) + ((((((1701) * mn(p, 1, 1, 4, 4, 2, 0, 1) + ((-2673) * mn(p, 1, 1, 4, 4, 0, 2, 2) + (2187) * mn(p, 1, 1, 4, 4, 0, 2, 0))) + ((-162) * mn(p, 1, 1, 4, 3, 2, 1, 2) + ((2916) * mn(p, 1, 1, 4, 3, 2, 1, 0) + (-972) * mn(p, 1, 1, 4, 3, 0, 3, 3)))) + (((-30132) * mn(p, 1, 1, 4, 3, 0, 3, 1) + ((-27) * mn(p, 1, 1, 4, 2, 4, 0, 2) + (-81) * mn(p, 1, 1, 4, 2, 4, 0, 0))) + (((-13608) * mn(p, 1, 1, 4, 2, 2, 2, 1) + (243) * mn(p, 1, 1, 4, 2, 0, 4, 4)) + ((19926) * mn(p, 1, 1, 4, 2, 0, 4, 2) + (26973) * mn(p, 1, 1, 4, 2, 0, 4, 0))))) + ((((-1134) * mn(p, 1, 1, 4, 1, 4, 1, 1) + ((7290) * mn(p, 1, 1, 4, 1, 2, 3, 2) + (4860) * mn(p, 1, 1, 4, 1, 2, 3, 0))) + (((-3888) * mn(p, 1, 1, 4, 1, 0, 5, 3) + (-18468) * mn(p, 1, 1, 4, 1, 0, 5, 1)) + ((432) * mn(p, 1, 1, 4, 0, 4, 2, 2) + (729) * mn(p, 1, 1, 4, 0, 4, 2, 0)))) + (((-1296) * mn(p, 1, 1, 4, 0, 2, 4, 3) + ((-1053) * mn(p, 1, 1, 4, 0, 2, 4, 1) + (4374) * mn(p, 1, 1, 4, 0, 0, 6, 2))) + (((-2187) * mn(p, 1, 1, 4, 0, 0, 6, 0) + (243) * mn(p, 1, 0, 5, 5, 1, 0, 3)) + ((6075) * mn(p, 1, 0, 5, 5, 1, 0, 1) + (-5589) * mn(p, 1, 0, 5, 4, 1, 1, 2)))))) + (((((-10206) * mn(p, 1, 0, 5, 4, 1, 1, 0) + ((-162) * mn(p, 1, 0, 5, 3, 3, 0, 2) + (162) * mn(p, 1, 0, 5, 3, 3, 0, 0))) + ((1215) * mn(p, 1, 0, 5, 3, 1, 2, 3) + ((-10206) * mn(p, 1, 0, 5, 3, 1, 2, 1) + (-81) * mn(p, 1, 0, 5, 2, 3, 1, 3)))) + (((-5265) * mn(p, 1, 0, 5, 2, 3, 1, 1) + ((-243) * mn(p, 1, 0, 5, 2, 1, 3, 4) + (14580) * mn(p, 1, 0, 5, 2, 1, 3, 2))) + (((32076) * mn(p, 1, 0, 5, 2, 1, 3, 0) + (4131) * mn(p, 1, 0, 5, 1, 3, 2, 2)) + ((7290) * mn(p, 1, 0, 5, 1, 3, 2, 0) + (-3645) * mn(p, 1, 0, 5, 1, 1, 4, 3))))) + ((((-26001) * mn(p, 1, 0, 5, 1, 1, 4, 1) + ((-972) * mn(p, 1, 0, 5, 0, 3, 3, 3) + (-2187) * mn(p, 1, 0, 5, 0, 3, 3, 1))) + (((7047) * mn(p, 1, 0, 5, 0, 1, 5, 2) + (-4374) * mn(p, 1, 0, 5, 0, 1, 5, 0)) + ((27) * mn(p, 0, 5, 1, 6, 0, 0, 1) + (-162) * mn(p, 0, 5, 1, 5, 0, 1, 0)))) + (((-27) * mn(p, 0, 5, 1, 4, 2, 0, 0) + ((540) * mn(p, 0, 5, 1, 3, 0, 3, 0) + (162) * mn(p, 0, 5, 1, 2, 2, 2, 0))) + (((-405) * mn(p, 0, 5, 1, 2, 0, 4, 1) + (18) * mn(p, 0, 5, 1, 1, 4, 1, 0)) + ((-108) * mn(p, 0, 5, 1, 1, 2, 3, 1) + (162) * mn(p, 0, 5, 1, 1, 0, 5, 2)))))))) + (((((((-162) * mn(p, 0, 5, 1, 1, 0, 5, 0) + ((1) * mn(p, 0, 5, 1, 0, 6, 0, 0) + (-9) * mn(p, 0, 5, 1, 0, 4, 2, 1))) + ((27) * mn(p, 0, 5, 1, 0, 2, 4, 2) + ((-27) * mn(p, 0, 5, 1, 0, 2, 4, 0) + (-27) * mn(p, 0, 5, 1, 0, 0, 6, 3)))) + (((54) * mn(p, 0, 5, 1, 0, 0, 6, 1) + ((-567) * mn(p, 0, 4, 2, 5, 1, 0, 0) + (648) * mn(p, 0, 4, 2, 4, 1, 1, 1))) + (((27) * mn(p, 0, 4, 2, 3, 3, 0, 1) + (-243) * mn(p, 0, 4, 2, 3, 1, 2, 2)) + ((1458) * mn(p, 0, 4, 2, 3, 1, 2, 0) + (459) * mn(p, 0, 4, 2, 2, 3, 1, 0))))) + ((((-1782) * mn(p, 0, 4, 2, 2, 1, 3, 1) + ((-540) * mn(p, 0, 4, 2, 1, 3, 2, 1) + (972) * mn(p, 0, 4, 2, 1, 1, 4, 2))) + (((-567) * mn(p, 0, 4, 2, 1, 1, 4, 0) + (-18) * mn(p, 0, 4, 2, 0, 5, 1, 1)) + ((108) * mn(p, 0, 4, 2, 0, 3, 3, 2) + (135) * mn(p, 0, 4, 2, 0, 3, 3, 0)))) + (((-162) * mn(p, 0, 4, 2, 0, 1, 5, 3) + ((162) * mn(p, 0, 4, 2, 0, 1, 5, 1) + (-270) * mn(p, 0, 3, 3, 6, 0, 0, 2))) + (((-1215) * mn(p, 0, 3, 3, 6, 0, 0, 0) + (3564) * mn(p, 0, 3, 3, 5, 0, 1, 1)) + ((432) * mn(p, 0, 3, 3, 4, 2, 0, 1) + (-486) * mn(p, 0, 3, 3, 4, 0, 2, 2)))))) + (((((729) * mn(p, 0, 3, 3, 4, 0, 2, 0) + ((972) * mn(p, 0, 3, 3, 3, 2, 1, 0) + (-10260) * mn(p, 0, 3, 3, 3, 0, 3, 1))) + ((-27) * mn(p, 0, 3, 3, 2, 4, 0, 0) + ((-4050) * mn(p, 0, 3, 3, 2, 2, 2, 1) + (5751) * mn(p, 0, 3, 3, 2, 0, 4, 2)))) + (((8991) * mn(p, 0, 3, 3, 2, 0, 4, 0) + ((-342) * mn(p, 0, 3, 3, 1, 4, 1, 1) + (2052) * mn(p, 0, 3, 3, 1, 2, 3, 2))) + (((1620) * mn(p, 0, 3, 3, 1, 2, 3, 0) + (-1134) * mn(p, 0, 3, 3, 1, 0, 5, 3)) + ((-5184) * mn(p, 0, 3, 3, 1, 0, 5, 1) + (-1) * mn(p, 0, 3, 3, 0, 6, 0, 1))))) + ((((117) * mn(p, 0, 3, 3, 0, 4, 2, 2) + ((243) * mn(p, 0, 3, 3, 0, 4, 2, 0) + (-351) * mn(p, 0, 3, 3, 0, 2, 4, 3))) + (((-378) * mn(p, 0, 3, 3, 0, 2, 4, 1) + (27) * mn(p, 0, 3, 3, 0, 0, 6, 4)) + ((1161) * mn(p, 0, 3, 3, 0, 0, 6, 2) + (-729) * mn(p, 0, 3, 3, 0, 0, 6, 0)))) + (((2268) * mn(p, 0, 2, 4, 5, 1, 0, 1) + ((-1620) * mn(p, 0, 2, 4, 4, 1, 1, 2) + (-3402) * mn(p, 0, 2, 4, 4, 1, 1, 0))) + (((-54) * mn(p, 0, 2, 4, 3, 3, 0, 2) + (54) * mn(p, 0, 2, 4, 3, 3, 0, 0)) + ((486) * mn(p, 0, 2, 4, 3, 1, 2, 3) + (-4860) * mn(p, 0, 2, 4, 3, 1, 2, 1))))))) + ((((((-1998) * mn(p, 0, 2, 4, 2, 3, 1, 1) + ((5184) * mn(p, 0, 2, 4, 2, 1, 3, 2) + (10692) * mn(p, 0, 2, 4, 2, 1, 3, 0))) + ((1512) * mn(p, 0, 2, 4, 1, 3, 2, 2) + ((2430) * mn(p, 0, 2, 4, 1, 3, 2, 0) + (-1944) * mn(p, 0, 2, 4, 1, 1, 4, 3)))) + (((-6480) * mn(p, 0, 2, 4, 1, 1, 4, 1) + ((18) * mn(p, 0, 2, 4, 0, 5, 1, 2) + (-324) * mn(p, 0, 2, 4, 0, 3, 3, 3))) + (((-864) * mn(p, 0, 2, 4, 0, 3, 3, 1) + (162) * mn(p, 0, 2, 4, 0, 1, 5, 4)) + ((1782) * mn(p, 0, 2, 4, 0, 1, 5, 2) + (-1458) * mn(p, 0, 2, 4, 0, 1, 5, 0))))) + ((((243) * mn(p, 0, 1, 5, 6, 0, 0, 3) + ((1215) * mn(p, 0, 1, 5, 6, 0, 0, 1) + (-3402) * mn(p, 0, 1, 5, 5, 0, 1, 2))) + (((-405) * mn(p, 0, 1, 5, 4, 2, 0, 2) + (486) * mn(p, 0, 1, 5, 4, 0, 2, 3)) + ((-729) * mn(p, 0, 1, 5, 4, 0, 2, 1) + (-972) * mn(p, 0, 1, 5, 3, 2, 1, 1)))) + (((9720) * mn(p, 0, 1, 5, 3, 0, 3, 2) + ((27) * mn(p, 0, 1, 5, 2, 4, 0, 1) + (3888) * mn(p, 0, 1, 5, 2, 2, 2, 2))) + (((-5346) * mn(p, 0, 1, 5, 2, 0, 4, 3) + (-8991) * mn(p, 0, 1, 5, 2, 0, 4, 1)) + ((324) * mn(p, 0, 1, 5, 1, 4, 1, 2) + (-1944) * mn(p, 0, 1, 5, 1, 2, 3, 3)))))) + (((((-1620) * mn(p, 0, 1, 5, 1, 2, 3, 1) + ((972) * mn(p, 0, 1, 5, 1, 0, 5, 4) + (5346) * mn(p, 0, 1, 5, 1, 0, 5, 2))) + ((-108) * mn(p, 0, 1, 5, 0, 4, 2, 3) + ((-243) * mn(p, 0, 1, 5, 0, 4, 2, 1) + (324) * mn(p, 0, 1, 5, 0, 2, 4, 4)))) + (((405) * mn(p, 0, 1, 5, 0, 2, 4, 2) + ((-1215) * mn(p, 0, 1, 5, 0, 0, 6, 3) + (729) * mn(p, 0, 1, 5, 0, 0, 6, 1))) + (((-1701) * mn(p, 0, 0, 6, 5, 1, 0, 2) + (972) * mn(p, 0, 0, 6, 4, 1, 1, 3)) + ((3402) * mn(p, 0, 0, 6, 4, 1, 1, 1) + (27) * mn(p, 0, 0, 6, 3, 3, 0, 3))))) + ((((-54) * mn(p, 0, 0, 6, 3, 3, 0, 1) + ((-243) * mn(p, 0, 0, 6, 3, 1, 2, 4) + (3402) * mn(p, 0, 0, 6, 3, 1, 2, 2))) + (((1539) * mn(p, 0, 0, 6, 2, 3, 1, 2) + (-3402) * mn(p, 0, 0, 6, 2, 1, 3, 3)) + ((-10692) * mn(p, 0, 0, 6, 2, 1, 3, 1) + (-972) * mn(p, 0, 0, 6, 1, 3, 2, 3)))) + (((-2430) * mn(p, 0, 0, 6, 1, 3, 2, 1) + ((972) * mn(p, 0, 0, 6, 1, 1, 4, 4) + (7047) * mn(p, 0, 0, 6, 1, 1, 4, 2))) + (((216) * mn(p, 0, 0, 6, 0, 3, 3, 4) + (729) * mn(p, 0, 0, 6, 0, 3, 3, 2)) + ((-1944) * mn(p, 0, 0, 6, 0, 1, 5, 3) + (1458) * mn(p, 0, 0, 6, 0, 1, 5, 1)))))))))),
{
    let c0 = ((((((-243) * mn(p, 3, 0, 0, 5, 1, 0, 0) + (486) * mn(p, 3, 0, 0, 4, 1, 1, 1)) + ((27) * mn(p, 3, 0, 0, 3, 3, 0, 1) + (-243) * mn(p, 3, 0, 0, 3, 1, 2, 2))) + (((-486) * mn(p, 3, 0, 0, 3, 1, 2, 0) + (-81) * mn(p, 3, 0, 0, 2, 3, 1, 0)) + ((486) * mn(p, 3, 0, 0, 2, 1, 3, 1) + (-243) * mn(p, 3, 0, 0, 1, 1, 4, 0)))) + ((((27) * mn(p, 3, 0, 0, 0, 3, 3, 0) + (-243) * mn(p, 2, 1, 0, 6, 0, 0, 0)) + ((486) * mn(p, 2, 1, 0, 5, 0, 1, 1) + (81) * mn(p, 2, 1, 0, 4, 2, 0, 1))) + (((-243) * mn(p, 2, 1, 0, 4, 0, 2, 2) + (-243) * mn(p, 2, 1, 0, 4, 0, 2, 0)) + ((-324) * mn(p, 2, 1, 0, 3, 2, 1, 0) + (-27) * mn(p, 2, 1, 0, 2, 4, 0, 0))))) + (((((243) * mn(p, 2, 1, 0, 2, 0, 4, 2) + (243) * mn(p, 2, 1, 0, 2, 0, 4, 0)) + ((324) * mn(p, 2, 1, 0, 1, 2, 3, 0) + (-486) * mn(p, 2, 1, 0, 1, 0, 5, 1))) + (((27) * mn(p, 2, 1, 0, 0, 4, 2, 0) + (-81) * mn(p, 2, 1, 0, 0, 2, 4, 1)) + ((243) * mn(p, 2, 1, 0, 0, 0, 6, 0) + (486) * mn(p, 2, 0, 1, 5, 1, 0, 1)))) + ((((-486) * mn(p, 2, 0, 1, 4, 1, 1, 2) + (-1458) * mn(p, 2, 0, 1, 4, 1, 1, 0)) + ((-162) * mn(p, 2, 0, 1, 3, 3, 0, 0) + (1944) * mn(p, 2, 0, 1, 3, 1, 2, 1))) + (((-972) * mn(p, 2, 0, 1, 2, 1, 3, 0) + (486) * mn(p, 2, 0, 1, 1, 3, 2, 0)) + ((-486) * mn(p, 2, 0, 1, 1, 1, 4, 1) + (-162) * mn(p, 2, 0, 1, 0, 3, 3, 1))))));
    let c1 = ((((((486) * mn(p, 2, 0, 1, 0, 1, 5, 0) + (81) * mn(p, 1, 2, 0, 5, 1, 0, 1)) + ((-486) * mn(p, 1, 2, 0, 4, 1, 1, 0) + (-27) * mn(p, 1, 2, 0, 3, 3, 0, 0))) + (((162) * mn(p, 1, 2, 0, 3, 1, 2, 1) + (-27) * mn(p, 1, 2, 0, 2, 3, 1, 1)) + ((-81) * mn(p, 1, 2, 0, 2, 1, 3, 2) + (648) * mn(p, 1, 2, 0, 2, 1, 3, 0)))) + ((((189) * mn(p, 1, 2, 0, 1, 3, 2, 0) + (-243) * mn(p, 1, 2, 0, 1, 1, 4, 1)) + ((9) * mn(p, 1, 2, 0, 0, 5, 1, 0) + (-54) * mn(p, 1, 2, 0, 0, 3, 3, 1))) + (((81) * mn(p, 1, 2, 0, 0, 1, 5, 2) + (-162) * mn(p, 1, 2, 0, 0, 1, 5, 0)) + ((486) * mn(p, 1, 1, 1, 6, 0, 0, 1) + (-486) * mn(p, 1, 1, 1, 5, 0, 1, 2))))) + (((((-1458) * mn(p, 1, 1, 1, 5, 0, 1, 0) + (-486) * mn(p, 1, 1, 1, 4, 2, 0, 0)) + ((1215) * mn(p, 1, 1, 1, 4, 0, 2, 1) + (162) * mn(p, 1, 1, 1, 3, 2, 1, 1))) + (((972) * mn(p, 1, 1, 1, 3, 0, 3, 2) + (972) * mn(p, 1, 1, 1, 3, 0, 3, 0)) + ((27) * mn(p, 1, 1, 1, 2, 4, 0, 1) + (1944) * mn(p, 1, 1, 1, 2, 2, 2, 0)))) + ((((-243) * mn(p, 1, 1, 1, 2, 0, 4, 3) + (-3888) * mn(p, 1, 1, 1, 2, 0, 4, 1)) + ((162) * mn(p, 1, 1, 1, 1, 4, 1, 0) + (-1458) * mn(p, 1, 1, 1, 1, 2, 3, 1))) + (((972) * mn(p, 1, 1, 1, 1, 0, 5, 2) + (2430) * mn(p, 1, 1, 1, 1, 0, 5, 0)) + ((-108) * mn(p, 1, 1, 1, 0, 4, 2, 1) + (324) * mn(p, 1, 1, 1, 0, 2, 4, 2))))));
    let c2 = ((((((-162) * mn(p, 1, 1, 1, 0, 2, 4, 0) + (-729) * mn(p, 1, 1, 1, 0, 0, 6, 1)) + ((-243) * mn(p, 1, 0, 2, 5, 1, 0, 2) + (-972) * mn(p, 1, 0, 2, 5, 1, 0, 0))) + (((2673) * mn(p, 1, 0, 2, 4, 1, 1, 1) + (81) * mn(p, 1, 0, 2, 3, 3, 0, 1)) + ((-486) * mn(p, 1, 0, 2, 3, 1, 2, 2) + (81) * mn(p, 1, 0, 2, 2, 3, 1, 2)))) + ((((648) * mn(p, 1, 0, 2, 2, 3, 1, 0) + (243) * mn(p, 1, 0, 2, 2, 1, 3, 3)) + ((-4374) * mn(p, 1, 0, 2, 2, 1, 3, 1) + (-1215) * mn(p, 1, 0, 2, 1, 3, 2, 1))) + (((729) * mn(p, 1, 0, 2, 1, 1, 4, 2) + (4860) * mn(p, 1, 0, 2, 1, 1, 4, 0)) + ((324) * mn(p, 1, 0, 2, 0, 3, 3, 2) + (-1215) * mn(p, 1, 0, 2, 0, 1, 5, 1))))) + (((((27) * mn(p, 0, 3, 0, 6, 0, 0, 1) + (-162) * mn(p, 0, 3, 0, 5, 0, 1, 0)) + ((-27) * mn(p, 0, 3, 0, 4, 2, 0, 0) + (540) * mn(p, 0, 3, 0, 3, 0, 3, 0))) + (((162) * mn(p, 0, 3, 0, 2, 2, 2, 0) + (-405) * mn(p, 0, 3, 0, 2, 0, 4, 1)) + ((18) * mn(p, 0, 3, 0, 1, 4, 1, 0) + (-108) * mn(p, 0, 3, 0, 1, 2, 3, 1)))) + ((((162) * mn(p, 0, 3, 0, 1, 0, 5, 2) + (-162) * mn(p, 0, 3, 0, 1, 0, 5, 0)) + ((1) * mn(p, 0, 3, 0, 0, 6, 0, 0) + (-9) * mn(p, 0, 3, 0, 0, 4, 2, 1))) + (((27) * mn(p, 0, 3, 0, 0, 2, 4, 2) + (-27) * mn(p, 0, 3, 0, 0, 2, 4, 0)) + ((-27) * mn(p, 0, 3, 0, 0, 0, 6, 3) + (54) * mn(p, 0, 3, 0, 0, 0, 6, 1))))));
    let c3 = ((((((-567) * mn(p, 0, 2, 1, 5, 1, 0, 0) + (648) * mn(p, 0, 2, 1, 4, 1, 1, 1)) + ((27) * mn(p, 0, 2, 1, 3, 3, 0, 1) + (-243) * mn(p, 0, 2, 1, 3, 1, 2, 2))) + (((1458) * mn(p, 0, 2, 1, 3, 1, 2, 0) + (459) * mn(p, 0, 2, 1, 2, 3, 1, 0)) + ((-1782) * mn(p, 0, 2, 1, 2, 1, 3, 1) + (-540) * mn(p, 0, 2, 1, 1, 3, 2, 1)))) + ((((972) * mn(p, 0, 2, 1, 1, 1, 4, 2) + (-567) * mn(p, 0, 2, 1, 1, 1, 4, 0)) + ((-18) * mn(p, 0, 2, 1, 0, 5, 1, 1) + (108) * mn(p, 0, 2, 1, 0, 3, 3, 2))) + (((135) * mn(p, 0, 2, 1, 0, 3, 3, 0) + (-162) * mn(p, 0, 2, 1, 0, 1, 5, 3)) + ((162) * mn(p, 0, 2, 1, 0, 1, 5, 1) + (-243) * mn(p, 0, 1, 2, 6, 0, 0, 2))))) + (((((-1215) * mn(p, 0, 1, 2, 6, 0, 0, 0) + (3402) * mn(p, 0, 1, 2, 5, 0, 1, 1)) + ((405) * mn(p, 0, 1, 2, 4, 2, 0, 1) + (-486) * mn(p, 0, 1, 2, 4, 0, 2, 2))) + (((729) * mn(p, 0, 1, 2, 4, 0, 2, 0) + (972) * mn(p, 0, 1, 2, 3, 2, 1, 0)) + ((-9720) * mn(p, 0, 1, 2, 3, 0, 3, 1) + (-27) * mn(p, 0, 1, 2, 2, 4, 0, 0)))) + ((((-3888) * mn(p, 0, 1, 2, 2, 2, 2, 1) + (5346) * mn(p, 0, 1, 2, 2, 0, 4, 2)) + ((8991) * mn(p, 0, 1, 2, 2, 0, 4, 0) + (-324) * mn(p, 0, 1, 2, 1, 4, 1, 1))) + (((1944) * mn(p, 0, 1, 2, 1, 2, 3, 2) + (1620) * mn(p, 0, 1, 2, 1, 2, 3, 0)) + ((-972) * mn(p, 0, 1, 2, 1, 0, 5, 3) + (-5346) * mn(p, 0, 1, 2, 1, 0, 5, 1))))));
    let c4 = (((((108) * mn(p, 0, 1, 2, 0, 4, 2, 2) + ((243) * mn(p, 0, 1, 2, 0, 4, 2, 0) + (-324) * mn(p, 0, 1, 2, 0, 2, 4, 3))) + ((-405) * mn(p, 0, 1, 2, 0, 2, 4, 1) + ((1215) * mn(p, 0, 1, 2, 0, 0, 6, 2) + (-729) * mn(p, 0, 1, 2, 0, 0, 6, 0)))) + (((1701) * mn(p, 0, 0, 3, 5, 1, 0, 1) + ((-972) * mn(p, 0, 0, 3, 4, 1, 1, 2) + (-3402) * mn(p, 0, 0, 3, 4, 1, 1, 0))) + ((-27) * mn(p, 0, 0, 3, 3, 3, 0, 2) + ((54) * mn(p, 0, 0, 3, 3, 3, 0, 0) + (243) * mn(p, 0, 0, 3, 3, 1, 2, 3))))) + ((((-3402) * mn(p, 0, 0, 3, 3, 1, 2, 1) + ((-1539) * mn(p, 0, 0, 3, 2, 3, 1, 1) + (3402) * mn(p, 0, 0, 3, 2, 1, 3, 2))) + ((10692) * mn(p, 0, 0, 3, 2, 1, 3, 0) + ((972) * mn(p, 0, 0, 3, 1, 3, 2, 2) + (2430) * mn(p, 0, 0, 3, 1, 3, 2, 0)))) + (((-972) * mn(p, 0, 0, 3, 1, 1, 4, 3) + ((-7047) * mn(p, 0, 0, 3, 1, 1, 4, 1) + (-216) * mn(p, 0, 0, 3, 0, 3, 3, 3))) + ((-729) * mn(p, 0, 0, 3, 0, 3, 3, 1) + ((1944) * mn(p, 0, 0, 3, 0, 1, 5, 2) + (-1458) * mn(p, 0, 0, 3, 0, 1, 5, 0))))));
    let cc0 = c0;
    let cc1 = cc0 + c1;
    let cc2 = cc1 + c2;
    let cc3 = cc2 + c3;
    let cc4 = cc3 + c4;
    assert(cc4 == ((((((((-243) * mn(p, 3, 0, 0, 5, 1, 0, 0) + (486) * mn(p, 3, 0, 0, 4, 1, 1, 1)) + ((27) * mn(p, 3, 0, 0, 3, 3, 0, 1) + (-243) * mn(p, 3, 0, 0, 3, 1, 2, 2))) + (((-486) * mn(p, 3, 0, 0, 3, 1, 2, 0) + (-81) * mn(p, 3, 0, 0, 2, 3, 1, 0)) + ((486) * mn(p, 3, 0, 0, 2, 1, 3, 1) + ((-243) * mn(p, 3, 0, 0, 1, 1, 4, 0) + (27) * mn(p, 3, 0, 0, 0, 3, 3, 0))))) + ((((-243) * mn(p, 2, 1, 0, 6, 0, 0, 0) + (486) * mn(p, 2, 1, 0, 5, 0, 1, 1)) + ((81) * mn(p, 2, 1, 0, 4, 2, 0, 1) + ((-243) * mn(p, 2, 1, 0, 4, 0, 2, 2) + (-243) * mn(p, 2, 1, 0, 4, 0, 2, 0)))) + (((-324) * mn(p, 2, 1, 0, 3, 2, 1, 0) + (-27) * mn(p, 2, 1, 0, 2, 4, 0, 0)) + ((243) * mn(p, 2, 1, 0, 2, 0, 4, 2) + ((243) * mn(p, 2, 1, 0, 2, 0, 4, 0) + (324) * mn(p, 2, 1, 0, 1, 2, 3, 0)))))) + (((((-486) * mn(p, 2, 1, 0, 1, 0, 5, 1) + (27) * mn(p, 2, 1, 0, 0, 4, 2, 0)) + ((-81) * mn(p, 2, 1, 0, 0, 2, 4, 1) + (243) * mn(p, 2, 1, 0, 0, 0, 6, 0))) + (((486) * mn(p, 2, 0, 1, 5, 1, 0, 1) + (-486) * mn(p, 2, 0, 1, 4, 1, 1, 2)) + ((-1458) * mn(p, 2, 0, 1, 4, 1, 1, 0) + ((-162) * mn(p, 2, 0, 1, 3, 3, 0, 0) + (1944) * mn(p, 2, 0, 1, 3, 1, 2, 1))))) + ((((-972) * mn(p, 2, 0, 1, 2, 1, 3, 0) + (486) * mn(p, 2, 0, 1, 1, 3, 2, 0)) + ((-486) * mn(p, 2, 0, 1, 1, 1, 4, 1) + ((-162) * mn(p, 2, 0, 1, 0, 3, 3, 1) + (486) * mn(p, 2, 0, 1, 0, 1, 5, 0)))) + (((81) * mn(p, 1, 2, 0, 5, 1, 0, 1) + (-486) * mn(p, 1, 2, 0, 4, 1, 1, 0)) + ((-27) * mn(p, 1, 2, 0, 3, 3, 0, 0) + ((162) * mn(p, 1, 2, 0, 3, 1, 2, 1) + (-27) * mn(p, 1, 2, 0, 2, 3, 1, 1))))))) + ((((((-81) * mn(p, 1, 2, 0, 2, 1, 3, 2) + (648) * mn(p, 1, 2, 0, 2, 1, 3, 0)) + ((189) * mn(p, 1, 2, 0, 1, 3, 2, 0) + (-243) * mn(p, 1, 2, 0, 1, 1, 4, 1))) + (((9) * mn(p, 1, 2, 0, 0, 5, 1, 0) + (-54) * mn(p, 1, 2, 0, 0, 3, 3, 1)) + ((81) * mn(p, 1, 2, 0, 0, 1, 5, 2) + ((-162) * mn(p, 1, 2, 0, 0, 1, 5, 0) + (486) * mn(p, 1, 1, 1, 6, 0, 0, 1))))) + ((((-486) * mn(p, 1, 1, 1, 5, 0, 1, 2) + (-1458) * mn(p, 1, 1, 1, 5, 0, 1, 0)) + ((-486) * mn(p, 1, 1, 1, 4, 2, 0, 0) + ((1215) * mn(p, 1, 1, 1, 4, 0, 2, 1) + (162) * mn(p, 1, 1, 1, 3, 2, 1, 1)))) + (((972) * mn(p, 1, 1, 1, 3, 0, 3, 2) + (972) * mn(p, 1, 1, 1, 3, 0, 3, 0)) + ((27) * mn(p, 1, 1, 1, 2, 4, 0, 1) + ((1944) * mn(p, 1, 1, 1, 2, 2, 2, 0) + (-243) * mn(p, 1, 1, 1, 2, 0, 4, 3)))))) + (((((-3888) * mn(p, 1, 1, 1, 2, 0, 4, 1) + (162) * mn(p, 1, 1, 1, 1, 4, 1, 0)) + ((-1458) * mn(p, 1, 1, 1, 1, 2, 3, 1) + (972) * mn(p, 1, 1, 1, 1, 0, 5, 2))) + (((2430) * mn(p, 1, 1, 1, 1, 0, 5, 0) + (-108) * mn(p, 1, 1, 1, 0, 4, 2, 1)) + ((324) * mn(p, 1, 1, 1, 0, 2, 4, 2) + ((-162) * mn(p, 1, 1, 1, 0, 2, 4, 0) + (-729) * mn(p, 1, 1, 1, 0, 0, 6, 1))))) + ((((-243) * mn(p, 1, 0, 2, 5, 1, 0, 2) + (-972) * mn(p, 1, 0, 2, 5, 1, 0, 0)) + ((2673) * mn(p, 1, 0, 2, 4, 1, 1, 1) + ((81) * mn(p, 1, 0, 2, 3, 3, 0, 1) + (-486) * mn(p, 1, 0, 2, 3, 1, 2, 2)))) + (((81) * mn(p, 1, 0, 2, 2, 3, 1, 2) + (648) * mn(p, 1, 0, 2, 2, 3, 1, 0)) + ((243) * mn(p, 1, 0, 2, 2, 1, 3, 3) + ((-4374) * mn(p, 1, 0, 2, 2, 1, 3, 1) + (-1215) * mn(p, 1, 0, 2, 1, 3, 2, 1)))))))) + (((((((729) * mn(p, 1, 0, 2, 1, 1, 4, 2) + (4860) * mn(p, 1, 0, 2, 1, 1, 4, 0)) + ((324) * mn(p, 1, 0, 2, 0, 3, 3, 2) + (-1215) * mn(p, 1, 0, 2, 0, 1, 5, 1))) + (((27) * mn(p, 0, 3, 0, 6, 0, 0, 1) + (-162) * mn(p, 0, 3, 0, 5, 0, 1, 0)) + ((-27) * mn(p, 0, 3, 0, 4, 2, 0, 0) + ((540) * mn(p, 0, 3, 0, 3, 0, 3, 0) + (162) * mn(p, 0, 3, 0, 2, 2, 2, 0))))) + ((((-405) * mn(p, 0, 3, 0, 2, 0, 4, 1) + (18) * mn(p, 0, 3, 0, 1, 4, 1, 0)) + ((-108) * mn(p, 0, 3, 0, 1, 2, 3, 1) + ((162) * mn(p, 0, 3, 0, 1, 0, 5, 2) + (-162) * mn(p, 0, 3, 0, 1, 0, 5, 0)))) + (((1) * mn(p, 0, 3, 0, 0, 6, 0, 0) + (-9) * mn(p, 0, 3, 0, 0, 4, 2, 1)) + ((27) * mn(p, 0, 3, 0, 0, 2, 4, 2) + ((-27) * mn(p, 0, 3, 0, 0, 2, 4, 0) + (-27) * mn(p, 0, 3, 0, 0, 0, 6, 3)))))) + (((((54) * mn(p, 0, 3, 0, 0, 0, 6, 1) + (-567) * mn(p, 0, 2, 1, 5, 1, 0, 0)) + ((648) * mn(p, 0, 2, 1, 4, 1, 1, 1) + (27) * mn(p, 0, 2, 1, 3, 3, 0, 1))) + (((-243) * mn(p, 0, 2, 1, 3, 1, 2, 2) + (1458) * mn(p, 0, 2, 1, 3, 1, 2, 0)) + ((459) * mn(p, 0, 2, 1, 2, 3, 1, 0) + ((-1782) * mn(p, 0, 2, 1, 2, 1, 3, 1) + (-540) * mn(p, 0, 2, 1, 1, 3, 2, 1))))) + ((((972) * mn(p, 0, 2, 1, 1, 1, 4, 2) + (-567) * mn(p, 0, 2, 1, 1, 1, 4, 0)) + ((-18) * mn(p, 0, 2, 1, 0, 5, 1, 1) + ((108) * mn(p, 0, 2, 1, 0, 3, 3, 2) + (135) * mn(p, 0, 2, 1, 0, 3, 3, 0)))) + (((-162) * mn(p, 0, 2, 1, 0, 1, 5, 3) + (162) * mn(p, 0, 2, 1, 0, 1, 5, 1)) + ((-243) * mn(p, 0, 1, 2, 6, 0, 0, 2) + ((-1215) * mn(p, 0, 1, 2, 6, 0, 0, 0) + (3402) * mn(p, 0, 1, 2, 5, 0, 1, 1))))))) + ((((((405) * mn(p, 0, 1, 2, 4, 2, 0, 1) + (-486) * mn(p, 0, 1, 2, 4, 0, 2, 2)) + ((729) * mn(p, 0, 1, 2, 4, 0, 2, 0) + (972) * mn(p, 0, 1, 2, 3, 2, 1, 0))) + (((-9720) * mn(p, 0, 1, 2, 3, 0, 3, 1) + (-27) * mn(p, 0, 1, 2, 2, 4, 0, 0)) + ((-3888) * mn(p, 0, 1, 2, 2, 2, 2, 1) + ((5346) * mn(p, 0, 1, 2, 2, 0, 4, 2) + (8991) * mn(p, 0, 1, 2, 2, 0, 4, 0))))) + ((((-324) * mn(p, 0, 1, 2, 1, 4, 1, 1) + (1944) * mn(p, 0, 1, 2, 1, 2, 3, 2)) + ((1620) * mn(p, 0, 1, 2, 1, 2, 3, 0) + ((-972) * mn(p, 0, 1, 2, 1, 0, 5, 3) + (-5346) * mn(p, 0, 1, 2, 1, 0, 5, 1)))) + (((108) * mn(p, 0, 1, 2, 0, 4, 2, 2) + (243) * mn(p, 0, 1, 2, 0, 4, 2, 0)) + ((-324) * mn(p, 0, 1, 2, 0, 2, 4, 3) + ((-405) * mn(p, 0, 1, 2, 0, 2, 4, 1) + (1215) * mn(p, 0, 1, 2, 0, 0, 6, 2)))))) + (((((-729) * mn(p, 0, 1, 2, 0, 0, 6, 0) + (1701) * mn(p, 0, 0, 3, 5, 1, 0, 1)) + ((-972) * mn(p, 0, 0, 3, 4, 1, 1, 2) + (-3402) * mn(p, 0, 0, 3, 4, 1, 1, 0))) + (((-27) * mn(p, 0, 0, 3, 3, 3, 0, 2) + (54) * mn(p, 0, 0, 3, 3, 3, 0, 0)) + ((243) * mn(p, 0, 0, 3, 3, 1, 2, 3) + ((-3402) * mn(p, 0, 0, 3, 3, 1, 2, 1) + (-1539) * mn(p, 0, 0, 3, 2, 3, 1, 1))))) + ((((3402) * mn(p, 0, 0, 3, 2, 1, 3, 2) + (10692) * mn(p, 0, 0, 3, 2, 1, 3, 0)) + ((972) * mn(p, 0, 0, 3, 1, 3, 2, 2) + ((2430) * mn(p, 0, 0, 3, 1, 3, 2, 0) + (-972) * mn(p, 0, 0, 3, 1, 1, 4, 3)))) + (((-7047) * mn(p, 0, 0, 3, 1, 1, 4, 1) + (-216) * mn(p, 0, 0, 3, 0, 3, 3, 3)) + ((-729) * mn(p, 0, 0, 3, 0, 3, 3, 1) + ((1944) * mn(p, 0, 0, 3, 0, 1, 5, 2) + (-1458) * mn(p, 0, 0, 3, 0, 1, 5, 0))))))))));
    let q = (((-1) * mn(p, 3, 0, 0, 0, 0, 0, 0) + (3) * mn(p, 1, 0, 2, 0, 0, 0, 0)) + ((1) * mn(p, 0, 2, 1, 0, 0, 0, 0) + (-1) * mn(p, 0, 0, 3, 0, 0, 0, 1)));
    lemma_mul_is_distributive_add_other_way(q, cc0, c1);
    lemma_mul_is_distributive_add_other_way(q, cc1, c2);
    lemma_mul_is_distributive_add_other_way(q, cc2, c3);
    lemma_mul_is_distributive_add_other_way(q, cc3, c4);
    acc_prod36_c0(p);
    assert(c0 * q == (((((((243) * mn(p, 6, 0, 0, 5, 1, 0, 0) + ((-486) * mn(p, 6, 0, 0, 4, 1, 1, 1) + (-27) * mn(p, 6, 0, 0, 3, 3, 0, 1))) + (((243) * mn(p, 6, 0, 0, 3, 1, 2, 2) + (486) * mn(p, 6, 0, 0, 3, 1, 2, 0)) + ((81) * mn(p, 6, 0, 0, 2, 3, 1, 0) + (-486) * mn(p, 6, 0, 0, 2, 1, 3, 1)))) + ((((243) * mn(p, 6, 0, 0, 1, 1, 4, 0) + (-27) * mn(p, 6, 0, 0, 0, 3, 3, 0)) + ((243) * mn(p, 5, 1, 0, 6, 0, 0, 0) + (-486) * mn(p, 5, 1, 0, 5, 0, 1, 1))) + (((-81) * mn(p, 5, 1, 0, 4, 2, 0, 1) + (243) * mn(p, 5, 1, 0, 4, 0, 2, 2)) + ((243) * mn(p, 5, 1, 0, 4, 0, 2, 0) + (324) * mn(p, 5, 1, 0, 3, 2, 1, 0))))) + ((((27) * mn(p, 5, 1, 0, 2, 4, 0, 0) + ((-243) * mn(p, 5, 1, 0, 2, 0, 4, 2) + (-243) * mn(p, 5, 1, 0, 2, 0, 4, 0))) + (((-324) * mn(p, 5, 1, 0, 1, 2, 3, 0) + (486) * mn(p, 5, 1, 0, 1, 0, 5, 1)) + ((-27) * mn(p, 5, 1, 0, 0, 4, 2, 0) + (81) * mn(p, 5, 1, 0, 0, 2, 4, 1)))) + ((((-243) * mn(p, 5, 1, 0, 0, 0, 6, 0) + (-486) * mn(p, 5, 0, 1, 5, 1, 0, 1)) + ((486) * mn(p, 5, 0, 1, 4, 1, 1, 2) + (1458) * mn(p, 5, 0, 1, 4, 1, 1, 0))) + (((162) * mn(p, 5, 0, 1, 3, 3, 0, 0) + (-1944) * mn(p, 5, 0, 1, 3, 1, 2, 1)) + ((972) * mn(p, 5, 0, 1, 2, 1, 3, 0) + (-486) * mn(p, 5, 0, 1, 1, 3, 2, 0)))))) + (((((486) * mn(p, 5, 0, 1, 1, 1, 4, 1) + ((162) * mn(p, 5, 0, 1, 0, 3, 3, 1) + (-729) * mn(p, 4, 0, 2, 5, 1, 0, 0))) + (((1458) * mn(p, 4, 0, 2, 4, 1, 1, 1) + (81) * mn(p, 4, 0, 2, 3, 3, 0, 1)) + ((-729) * mn(p, 4, 0, 2, 3, 1, 2, 2) + (-1458) * mn(p, 4, 0, 2, 3, 1, 2, 0)))) + ((((-243) * mn(p, 4, 0, 2, 2, 3, 1, 0) + (1458) * mn(p, 4, 0, 2, 2, 1, 3, 1)) + ((-729) * mn(p, 4, 0, 2, 1, 1, 4, 0) + (81) * mn(p, 4, 0, 2, 0, 3, 3, 0))) + (((-243) * mn(p, 3, 2, 1, 5, 1, 0, 0) + (486) * mn(p, 3, 2, 1, 4, 1, 1, 1)) + ((27) * mn(p, 3, 2, 1, 3, 3, 0, 1) + (-243) * mn(p, 3, 2, 1, 3, 1, 2, 2))))) + (((((-486) * mn(p, 3, 2, 1, 3, 1, 2, 0) + (-81) * mn(p, 3, 2, 1, 2, 3, 1, 0)) + ((486) * mn(p, 3, 2, 1, 2, 1, 3, 1) + (-243) * mn(p, 3, 2, 1, 1, 1, 4, 0))) + (((27) * mn(p, 3, 2, 1, 0, 3, 3, 0) + (-729) * mn(p, 3, 1, 2, 6, 0, 0, 0)) + ((1458) * mn(p, 3, 1, 2, 5, 0, 1, 1) + (243) * mn(p, 3, 1, 2, 4, 2, 0, 1)))) + ((((-729) * mn(p, 3, 1, 2, 4, 0, 2, 2) + (-729) * mn(p, 3, 1, 2, 4, 0, 2, 0)) + ((-972) * mn(p, 3, 1, 2, 3, 2, 1, 0) + (-81) * mn(p, 3, 1, 2, 2, 4, 0, 0))) + (((729) * mn(p, 3, 1, 2, 2, 0, 4, 2) + (729) * mn(p, 3, 1, 2, 2, 0, 4, 0)) + ((972) * mn(p, 3, 1, 2, 1, 2, 3, 0) + (-1458) * mn(p, 3, 1, 2, 1, 0, 5, 1))))))) + ((((((81) * mn(p, 3, 1, 2, 0, 4, 2, 0) + ((-243) * mn(p, 3, 1, 2, 0, 2, 4, 1) + (729) * mn(p, 3, 1, 2, 0, 0, 6, 0))) + (((1701) * mn(p, 3, 0, 3, 5, 1, 0, 1) + (-1944) * mn(p, 3, 0, 3, 4, 1, 1, 2)) + ((-4374) * mn(p, 3, 0, 3, 4, 1, 1, 0) + (-27) * mn(p, 3, 0, 3, 3, 3, 0, 2)))) + ((((-486) * mn(p, 3, 0, 3, 3, 3, 0, 0) + (243) * mn(p, 3, 0, 3, 3, 1, 2, 3)) + ((6318) * mn(p, 3, 0, 3, 3, 1, 2, 1) + (81) * mn(p, 3, 0, 3, 2, 3, 1, 1))) + (((-486) * mn(p, 3, 0, 3, 2, 1, 3, 2) + (-2916) * mn(p, 3, 0, 3, 2, 1, 3, 0)) + ((1458) * mn(p, 3, 0, 3, 1, 3, 2, 0) + (-1215) * mn(p, 3, 0, 3, 1, 1, 4, 1))))) + (((((-513) * mn(p, 3, 0, 3, 0, 3, 3, 1) + (-243) * mn(p, 2, 3, 1, 6, 0, 0, 0)) + ((486) * mn(p, 2, 3, 1, 5, 0, 1, 1) + (81) * mn(p, 2, 3, 1, 4, 2, 0, 1))) + (((-243) * mn(p, 2, 3, 1, 4, 0, 2, 2) + (-243) * mn(p, 2, 3, 1, 4, 0, 2, 0)) + ((-324) * mn(p, 2, 3, 1, 3, 2, 1, 0) + (-27) * mn(p, 2, 3, 1, 2, 4, 0, 0)))) + ((((243) * mn(p, 2, 3, 1, 2, 0, 4, 2) + (243) * mn(p, 2, 3, 1, 2, 0, 4, 0)) + ((324) * mn(p, 2, 3, 1, 1, 2, 3, 0) + (-486) * mn(p, 2, 3, 1, 1, 0, 5, 1))) + (((27) * mn(p, 2, 3, 1, 0, 4, 2, 0) + (-81) * mn(p, 2, 3, 1, 0, 2, 4, 1)) + ((243) * mn(p, 2, 3, 1, 0, 0, 6, 0) + (486) * mn(p, 2, 2, 2, 5, 1, 0, 1)))))) + (((((-486) * mn(p, 2, 2, 2, 4, 1, 1, 2) + ((-1458) * mn(p, 2, 2, 2, 4, 1, 1, 0) + (-162) * mn(p, 2, 2, 2, 3, 3, 0, 0))) + (((1944) * mn(p, 2, 2, 2, 3, 1, 2, 1) + (-972) * mn(p, 2, 2, 2, 2, 1, 3, 0)) + ((486) * mn(p, 2, 2, 2, 1, 3, 2, 0) + (-486) * mn(p, 2, 2, 2, 1, 1, 4, 1)))) + ((((-162) * mn(p, 2, 2, 2, 0, 3, 3, 1) + (243) * mn(p, 2, 1, 3, 6, 0, 0, 1)) + ((-486) * mn(p, 2, 1, 3, 5, 0, 1, 2) + (-81) * mn(p, 2, 1, 3, 4, 2, 0, 2))) + (((243) * mn(p, 2, 1, 3, 4, 0, 2, 3) + (243) * mn(p, 2, 1, 3, 4, 0, 2, 1)) + ((324) * mn(p, 2, 1, 3, 3, 2, 1, 1) + (27) * mn(p, 2, 1, 3, 2, 4, 0, 1))))) + (((((-243) * mn(p, 2, 1, 3, 2, 0, 4, 3) + (-243) * mn(p, 2, 1, 3, 2, 0, 4, 1)) + ((-324) * mn(p, 2, 1, 3, 1, 2, 3, 1) + (486) * mn(p, 2, 1, 3, 1, 0, 5, 2))) + (((-27) * mn(p, 2, 1, 3, 0, 4, 2, 1) + (81) * mn(p, 2, 1, 3, 0, 2, 4, 2)) + ((-243) * mn(p, 2, 1, 3, 0, 0, 6, 1) + (-486) * mn(p, 2, 0, 4, 5, 1, 0, 2)))) + ((((486) * mn(p, 2, 0, 4, 4, 1, 1, 3) + (1458) * mn(p, 2, 0, 4, 4, 1, 1, 1)) + ((162) * mn(p, 2, 0, 4, 3, 3, 0, 1) + (-1944) * mn(p, 2, 0, 4, 3, 1, 2, 2))) + (((972) * mn(p, 2, 0, 4, 2, 1, 3, 1) + (-486) * mn(p, 2, 0, 4, 1, 3, 2, 1)) + ((486) * mn(p, 2, 0, 4, 1, 1, 4, 2) + (162) * mn(p, 2, 0, 4, 0, 3, 3, 2)))))))));
    acc_prod36_c1(p);
    assert(c1 * q == (((((((-486) * mn(p, 5, 0, 1, 0, 1, 5, 0) + ((-81) * mn(p, 4, 2, 0, 5, 1, 0, 1) + (486) * mn(p, 4, 2, 0, 4, 1, 1, 0))) + (((27) * mn(p, 4, 2, 0, 3, 3, 0, 0) + (-162) * mn(p, 4, 2, 0, 3, 1, 2, 1)) + ((27) * mn(p, 4, 2, 0, 2, 3, 1, 1) + (81) * mn(p, 4, 2, 0, 2, 1, 3, 2)))) + ((((-648) * mn(p, 4, 2, 0, 2, 1, 3, 0) + (-189) * mn(p, 4, 2, 0, 1, 3, 2, 0)) + ((243) * mn(p, 4, 2, 0, 1, 1, 4, 1) + (-9) * mn(p, 4, 2, 0, 0, 5, 1, 0))) + (((54) * mn(p, 4, 2, 0, 0, 3, 3, 1) + (-81) * mn(p, 4, 2, 0, 0, 1, 5, 2)) + ((162) * mn(p, 4, 2, 0, 0, 1, 5, 0) + (-486) * mn(p, 4, 1, 1, 6, 0, 0, 1))))) + (((((486) * mn(p, 4, 1, 1, 5, 0, 1, 2) + (1458) * mn(p, 4, 1, 1, 5, 0, 1, 0)) + ((486) * mn(p, 4, 1, 1, 4, 2, 0, 0) + (-1215) * mn(p, 4, 1, 1, 4, 0, 2, 1))) + (((-162) * mn(p, 4, 1, 1, 3, 2, 1, 1) + (-972) * mn(p, 4, 1, 1, 3, 0, 3, 2)) + ((-972) * mn(p, 4, 1, 1, 3, 0, 3, 0) + (-27) * mn(p, 4, 1, 1, 2, 4, 0, 1)))) + ((((-1944) * mn(p, 4, 1, 1, 2, 2, 2, 0) + (243) * mn(p, 4, 1, 1, 2, 0, 4, 3)) + ((3888) * mn(p, 4, 1, 1, 2, 0, 4, 1) + (-162) * mn(p, 4, 1, 1, 1, 4, 1, 0))) + (((1458) * mn(p, 4, 1, 1, 1, 2, 3, 1) + (-972) * mn(p, 4, 1, 1, 1, 0, 5, 2)) + ((-2430) * mn(p, 4, 1, 1, 1, 0, 5, 0) + (108) * mn(p, 4, 1, 1, 0, 4, 2, 1)))))) + ((((((-324) * mn(p, 4, 1, 1, 0, 2, 4, 2) + (1458) * mn(p, 3, 0, 3, 0, 1, 5, 0)) + ((243) * mn(p, 2, 2, 2, 5, 1, 0, 1) + (-1458) * mn(p, 2, 2, 2, 4, 1, 1, 0))) + (((-81) * mn(p, 2, 2, 2, 3, 3, 0, 0) + (486) * mn(p, 2, 2, 2, 3, 1, 2, 1)) + ((-81) * mn(p, 2, 2, 2, 2, 3, 1, 1) + (-243) * mn(p, 2, 2, 2, 2, 1, 3, 2)))) + ((((1944) * mn(p, 2, 2, 2, 2, 1, 3, 0) + (567) * mn(p, 2, 2, 2, 1, 3, 2, 0)) + ((-729) * mn(p, 2, 2, 2, 1, 1, 4, 1) + (27) * mn(p, 2, 2, 2, 0, 5, 1, 0))) + (((-162) * mn(p, 2, 2, 2, 0, 3, 3, 1) + (243) * mn(p, 2, 2, 2, 0, 1, 5, 2)) + ((1458) * mn(p, 2, 1, 3, 6, 0, 0, 1) + (-1458) * mn(p, 2, 1, 3, 5, 0, 1, 2))))) + (((((-4374) * mn(p, 2, 1, 3, 5, 0, 1, 0) + (-1458) * mn(p, 2, 1, 3, 4, 2, 0, 0)) + ((3645) * mn(p, 2, 1, 3, 4, 0, 2, 1) + (486) * mn(p, 2, 1, 3, 3, 2, 1, 1))) + (((2916) * mn(p, 2, 1, 3, 3, 0, 3, 2) + (2916) * mn(p, 2, 1, 3, 3, 0, 3, 0)) + ((81) * mn(p, 2, 1, 3, 2, 4, 0, 1) + (5832) * mn(p, 2, 1, 3, 2, 2, 2, 0)))) + ((((-729) * mn(p, 2, 1, 3, 2, 0, 4, 3) + (-11664) * mn(p, 2, 1, 3, 2, 0, 4, 1)) + ((486) * mn(p, 2, 1, 3, 1, 4, 1, 0) + (-4374) * mn(p, 2, 1, 3, 1, 2, 3, 1))) + (((2916) * mn(p, 2, 1, 3, 1, 0, 5, 2) + (7290) * mn(p, 2, 1, 3, 1, 0, 5, 0)) + ((-324) * mn(p, 2, 1, 3, 0, 4, 2, 1) + (972) * mn(p, 2, 1, 3, 0, 2, 4, 2))))))) + ((((((-486) * mn(p, 2, 0, 4, 0, 1, 5, 1) + ((81) * mn(p, 1, 4, 1, 5, 1, 0, 1) + (-486) * mn(p, 1, 4, 1, 4, 1, 1, 0))) + (((-27) * mn(p, 1, 4, 1, 3, 3, 0, 0) + (162) * mn(p, 1, 4, 1, 3, 1, 2, 1)) + ((-27) * mn(p, 1, 4, 1, 2, 3, 1, 1) + (-81) * mn(p, 1, 4, 1, 2, 1, 3, 2)))) + ((((648) * mn(p, 1, 4, 1, 2, 1, 3, 0) + (189) * mn(p, 1, 4, 1, 1, 3, 2, 0)) + ((-243) * mn(p, 1, 4, 1, 1, 1, 4, 1) + (9) * mn(p, 1, 4, 1, 0, 5, 1, 0))) + (((-54) * mn(p, 1, 4, 1, 0, 3, 3, 1) + (81) * mn(p, 1, 4, 1, 0, 1, 5, 2)) + ((-162) * mn(p, 1, 4, 1, 0, 1, 5, 0) + (486) * mn(p, 1, 3, 2, 6, 0, 0, 1))))) + (((((-486) * mn(p, 1, 3, 2, 5, 0, 1, 2) + (-1458) * mn(p, 1, 3, 2, 5, 0, 1, 0)) + ((-486) * mn(p, 1, 3, 2, 4, 2, 0, 0) + (1215) * mn(p, 1, 3, 2, 4, 0, 2, 1))) + (((162) * mn(p, 1, 3, 2, 3, 2, 1, 1) + (972) * mn(p, 1, 3, 2, 3, 0, 3, 2)) + ((972) * mn(p, 1, 3, 2, 3, 0, 3, 0) + (27) * mn(p, 1, 3, 2, 2, 4, 0, 1)))) + ((((1944) * mn(p, 1, 3, 2, 2, 2, 2, 0) + (-243) * mn(p, 1, 3, 2, 2, 0, 4, 3)) + ((-3888) * mn(p, 1, 3, 2, 2, 0, 4, 1) + (162) * mn(p, 1, 3, 2, 1, 4, 1, 0))) + (((-1458) * mn(p, 1, 3, 2, 1, 2, 3, 1) + (972) * mn(p, 1, 3, 2, 1, 0, 5, 2)) + ((2430) * mn(p, 1, 3, 2, 1, 0, 5, 0) + (-108) * mn(p, 1, 3, 2, 0, 4, 2, 1)))))) + ((((((324) * mn(p, 1, 3, 2, 0, 2, 4, 2) + (-81) * mn(p, 1, 2, 3, 5, 1, 0, 2)) + ((486) * mn(p, 1, 2, 3, 4, 1, 1, 1) + (27) * mn(p, 1, 2, 3, 3, 3, 0, 1))) + (((-162) * mn(p, 1, 2, 3, 3, 1, 2, 2) + (27) * mn(p, 1, 2, 3, 2, 3, 1, 2)) + ((81) * mn(p, 1, 2, 3, 2, 1, 3, 3) + (-648) * mn(p, 1, 2, 3, 2, 1, 3, 1)))) + ((((-189) * mn(p, 1, 2, 3, 1, 3, 2, 1) + (243) * mn(p, 1, 2, 3, 1, 1, 4, 2)) + ((-9) * mn(p, 1, 2, 3, 0, 5, 1, 1) + (54) * mn(p, 1, 2, 3, 0, 3, 3, 2))) + (((-81) * mn(p, 1, 2, 3, 0, 1, 5, 3) + (162) * mn(p, 1, 2, 3, 0, 1, 5, 1)) + ((-486) * mn(p, 1, 1, 4, 6, 0, 0, 2) + (486) * mn(p, 1, 1, 4, 5, 0, 1, 3))))) + (((((1458) * mn(p, 1, 1, 4, 5, 0, 1, 1) + (486) * mn(p, 1, 1, 4, 4, 2, 0, 1)) + ((-1215) * mn(p, 1, 1, 4, 4, 0, 2, 2) + (-162) * mn(p, 1, 1, 4, 3, 2, 1, 2))) + (((-972) * mn(p, 1, 1, 4, 3, 0, 3, 3) + (-972) * mn(p, 1, 1, 4, 3, 0, 3, 1)) + ((-27) * mn(p, 1, 1, 4, 2, 4, 0, 2) + (-1944) * mn(p, 1, 1, 4, 2, 2, 2, 1)))) + ((((243) * mn(p, 1, 1, 4, 2, 0, 4, 4) + (3888) * mn(p, 1, 1, 4, 2, 0, 4, 2)) + ((-162) * mn(p, 1, 1, 4, 1, 4, 1, 1) + (1458) * mn(p, 1, 1, 4, 1, 2, 3, 2))) + (((-972) * mn(p, 1, 1, 4, 1, 0, 5, 3) + (-2430) * mn(p, 1, 1, 4, 1, 0, 5, 1)) + ((108) * mn(p, 1, 1, 4, 0, 4, 2, 2) + (-324) * mn(p, 1, 1, 4, 0, 2, 4, 3)))))))));
    acc_prod36_c2(p);
    assert(c2 * q == (((((((162) * mn(p, 4, 1, 1, 0, 2, 4, 0) + ((729) * mn(p, 4, 1, 1, 0, 0, 6, 1) + (243) * mn(p, 4, 0, 2, 5, 1, 0, 2))) + (((972) * mn(p, 4, 0, 2, 5, 1, 0, 0) + (-2673) * mn(p, 4, 0, 2, 4, 1, 1, 1)) + ((-81) * mn(p, 4, 0, 2, 3, 3, 0, 1) + (486) * mn(p, 4, 0, 2, 3, 1, 2, 2)))) + ((((-81) * mn(p, 4, 0, 2, 2, 3, 1, 2) + (-648) * mn(p, 4, 0, 2, 2, 3, 1, 0)) + ((-243) * mn(p, 4, 0, 2, 2, 1, 3, 3) + (4374) * mn(p, 4, 0, 2, 2, 1, 3, 1))) + (((1215) * mn(p, 4, 0, 2, 1, 3, 2, 1) + (-729) * mn(p, 4, 0, 2, 1, 1, 4, 2)) + ((-4860) * mn(p, 4, 0, 2, 1, 1, 4, 0) + (-324) * mn(p, 4, 0, 2, 0, 3, 3, 2))))) + (((((1215) * mn(p, 4, 0, 2, 0, 1, 5, 1) + (-27) * mn(p, 3, 3, 0, 6, 0, 0, 1)) + ((162) * mn(p, 3, 3, 0, 5, 0, 1, 0) + (27) * mn(p, 3, 3, 0, 4, 2, 0, 0))) + (((-540) * mn(p, 3, 3, 0, 3, 0, 3, 0) + (-162) * mn(p, 3, 3, 0, 2, 2, 2, 0)) + ((405) * mn(p, 3, 3, 0, 2, 0, 4, 1) + (-18) * mn(p, 3, 3, 0, 1, 4, 1, 0)))) + ((((108) * mn(p, 3, 3, 0, 1, 2, 3, 1) + (-162) * mn(p, 3, 3, 0, 1, 0, 5, 2)) + ((162) * mn(p, 3, 3, 0, 1, 0, 5, 0) + (-1) * mn(p, 3, 3, 0, 0, 6, 0, 0))) + (((9) * mn(p, 3, 3, 0, 0, 4, 2, 1) + (-27) * mn(p, 3, 3, 0, 0, 2, 4, 2)) + ((27) * mn(p, 3, 3, 0, 0, 2, 4, 0) + (27) * mn(p, 3, 3, 0, 0, 0, 6, 3)))))) + ((((((-54) * mn(p, 3, 3, 0, 0, 0, 6, 1) + (-486) * mn(p, 2, 1, 3, 0, 2, 4, 0)) + ((-2187) * mn(p, 2, 1, 3, 0, 0, 6, 1) + (-729) * mn(p, 2, 0, 4, 5, 1, 0, 2))) + (((-2916) * mn(p, 2, 0, 4, 5, 1, 0, 0) + (8019) * mn(p, 2, 0, 4, 4, 1, 1, 1)) + ((243) * mn(p, 2, 0, 4, 3, 3, 0, 1) + (-1458) * mn(p, 2, 0, 4, 3, 1, 2, 2)))) + ((((243) * mn(p, 2, 0, 4, 2, 3, 1, 2) + (1944) * mn(p, 2, 0, 4, 2, 3, 1, 0)) + ((729) * mn(p, 2, 0, 4, 2, 1, 3, 3) + (-13122) * mn(p, 2, 0, 4, 2, 1, 3, 1))) + (((-3645) * mn(p, 2, 0, 4, 1, 3, 2, 1) + (2187) * mn(p, 2, 0, 4, 1, 1, 4, 2)) + ((14580) * mn(p, 2, 0, 4, 1, 1, 4, 0) + (972) * mn(p, 2, 0, 4, 0, 3, 3, 2))))) + (((((-3645) * mn(p, 2, 0, 4, 0, 1, 5, 1) + (81) * mn(p, 1, 3, 2, 6, 0, 0, 1)) + ((-486) * mn(p, 1, 3, 2, 5, 0, 1, 0) + (-81) * mn(p, 1, 3, 2, 4, 2, 0, 0))) + (((1620) * mn(p, 1, 3, 2, 3, 0, 3, 0) + (486) * mn(p, 1, 3, 2, 2, 2, 2, 0)) + ((-1215) * mn(p, 1, 3, 2, 2, 0, 4, 1) + (54) * mn(p, 1, 3, 2, 1, 4, 1, 0)))) + ((((-324) * mn(p, 1, 3, 2, 1, 2, 3, 1) + (486) * mn(p, 1, 3, 2, 1, 0, 5, 2)) + ((-486) * mn(p, 1, 3, 2, 1, 0, 5, 0) + (3) * mn(p, 1, 3, 2, 0, 6, 0, 0))) + (((-27) * mn(p, 1, 3, 2, 0, 4, 2, 1) + (81) * mn(p, 1, 3, 2, 0, 2, 4, 2)) + ((-243) * mn(p, 1, 3, 2, 0, 2, 4, 0) + (-81) * mn(p, 1, 3, 2, 0, 0, 6, 3))))))) + ((((((-567) * mn(p, 1, 3, 2, 0, 0, 6, 1) + ((-243) * mn(p, 1, 2, 3, 5, 1, 0, 2) + (-972) * mn(p, 1, 2, 3, 5, 1, 0, 0))) + (((2673) * mn(p, 1, 2, 3, 4, 1, 1, 1) + (81) * mn(p, 1, 2, 3, 3, 3, 0, 1)) + ((-486) * mn(p, 1, 2, 3, 3, 1, 2, 2) + (81) * mn(p, 1, 2, 3, 2, 3, 1, 2)))) + ((((648) * mn(p, 1, 2, 3, 2, 3, 1, 0) + (243) * mn(p, 1, 2, 3, 2, 1, 3, 3)) + ((-4374) * mn(p, 1, 2, 3, 2, 1, 3, 1) + (-1215) * mn(p, 1, 2, 3, 1, 3, 2, 1))) + (((729) * mn(p, 1, 2, 3, 1, 1, 4, 2) + (4860) * mn(p, 1, 2, 3, 1, 1, 4, 0)) + ((324) * mn(p, 1, 2, 3, 0, 3, 3, 2) + (-1215) * mn(p, 1, 2, 3, 0, 1, 5, 1))))) + (((((162) * mn(p, 1, 1, 4, 0, 2, 4, 1) + (729) * mn(p, 1, 1, 4, 0, 0, 6, 2)) + ((243) * mn(p, 1, 0, 5, 5, 1, 0, 3) + (972) * mn(p, 1, 0, 5, 5, 1, 0, 1))) + (((-2673) * mn(p, 1, 0, 5, 4, 1, 1, 2) + (-81) * mn(p, 1, 0, 5, 3, 3, 0, 2)) + ((486) * mn(p, 1, 0, 5, 3, 1, 2, 3) + (-81) * mn(p, 1, 0, 5, 2, 3, 1, 3)))) + ((((-648) * mn(p, 1, 0, 5, 2, 3, 1, 1) + (-243) * mn(p, 1, 0, 5, 2, 1, 3, 4)) + ((4374) * mn(p, 1, 0, 5, 2, 1, 3, 2) + (1215) * mn(p, 1, 0, 5, 1, 3, 2, 2))) + (((-729) * mn(p, 1, 0, 5, 1, 1, 4, 3) + (-4860) * mn(p, 1, 0, 5, 1, 1, 4, 1)) + ((-324) * mn(p, 1, 0, 5, 0, 3, 3, 3) + (1215) * mn(p, 1, 0, 5, 0, 1, 5, 2)))))) + ((((((27) * mn(p, 0, 5, 1, 6, 0, 0, 1) + (-162) * mn(p, 0, 5, 1, 5, 0, 1, 0)) + ((-27) * mn(p, 0, 5, 1, 4, 2, 0, 0) + (540) * mn(p, 0, 5, 1, 3, 0, 3, 0))) + (((162) * mn(p, 0, 5, 1, 2, 2, 2, 0) + (-405) * mn(p, 0, 5, 1, 2, 0, 4, 1)) + ((18) * mn(p, 0, 5, 1, 1, 4, 1, 0) + (-108) * mn(p, 0, 5, 1, 1, 2, 3, 1)))) + ((((162) * mn(p, 0, 5, 1, 1, 0, 5, 2) + (-162) * mn(p, 0, 5, 1, 1, 0, 5, 0)) + ((1) * mn(p, 0, 5, 1, 0, 6, 0, 0) + (-9) * mn(p, 0, 5, 1, 0, 4, 2, 1))) + (((27) * mn(p, 0, 5, 1, 0, 2, 4, 2) + (-27) * mn(p, 0, 5, 1, 0, 2, 4, 0)) + ((-27) * mn(p, 0, 5, 1, 0, 0, 6, 3) + (54) * mn(p, 0, 5, 1, 0, 0, 6, 1))))) + (((((-27) * mn(p, 0, 3, 3, 6, 0, 0, 2) + (162) * mn(p, 0, 3, 3, 5, 0, 1, 1)) + ((27) * mn(p, 0, 3, 3, 4, 2, 0, 1) + (-540) * mn(p, 0, 3, 3, 3, 0, 3, 1))) + (((-162) * mn(p, 0, 3, 3, 2, 2, 2, 1) + (405) * mn(p, 0, 3, 3, 2, 0, 4, 2)) + ((-18) * mn(p, 0, 3, 3, 1, 4, 1, 1) + (108) * mn(p, 0, 3, 3, 1, 2, 3, 2)))) + ((((-162) * mn(p, 0, 3, 3, 1, 0, 5, 3) + (162) * mn(p, 0, 3, 3, 1, 0, 5, 1)) + ((-1) * mn(p, 0, 3, 3, 0, 6, 0, 1) + (9) * mn(p, 0, 3, 3, 0, 4, 2, 2))) + (((-27) * mn(p, 0, 3, 3, 0, 2, 4, 3) + (27) * mn(p, 0, 3, 3, 0, 2, 4, 1)) + ((27) * mn(p, 0, 3, 3, 0, 0, 6, 4) + (-54) * mn(p, 0, 3, 3, 0, 0, 6, 2)))))))));
    acc_prod36_c3(p);
    assert(c3 * q == ((((((((567) * mn(p, 3, 2, 1, 5, 1, 0, 0) + (-648) * mn(p, 3, 2, 1, 4, 1, 1, 1)) + ((-27) * mn(p, 3, 2, 1, 3, 3, 0, 1) + (243) * mn(p, 3, 2, 1, 3, 1, 2, 2))) + (((-1458) * mn(p, 3, 2, 1, 3, 1, 2, 0) + (-459) * mn(p, 3, 2, 1, 2, 3, 1, 0)) + ((1782) * mn(p, 3, 2, 1, 2, 1, 3, 1) + (540) * mn(p, 3, 2, 1, 1, 3, 2, 1)))) + ((((-972) * mn(p, 3, 2, 1, 1, 1, 4, 2) + (567) * mn(p, 3, 2, 1, 1, 1, 4, 0)) + ((18) * mn(p, 3, 2, 1, 0, 5, 1, 1) + (-108) * mn(p, 3, 2, 1, 0, 3, 3, 2))) + (((-135) * mn(p, 3, 2, 1, 0, 3, 3, 0) + (162) * mn(p, 3, 2, 1, 0, 1, 5, 3)) + ((-162) * mn(p, 3, 2, 1, 0, 1, 5, 1) + (243) * mn(p, 3, 1, 2, 6, 0, 0, 2))))) + (((((1215) * mn(p, 3, 1, 2, 6, 0, 0, 0) + (-3402) * mn(p, 3, 1, 2, 5, 0, 1, 1)) + ((-405) * mn(p, 3, 1, 2, 4, 2, 0, 1) + (486) * mn(p, 3, 1, 2, 4, 0, 2, 2))) + (((-729) * mn(p, 3, 1, 2, 4, 0, 2, 0) + (-972) * mn(p, 3, 1, 2, 3, 2, 1, 0)) + ((9720) * mn(p, 3, 1, 2, 3, 0, 3, 1) + (27) * mn(p, 3, 1, 2, 2, 4, 0, 0)))) + ((((3888) * mn(p, 3, 1, 2, 2, 2, 2, 1) + (-5346) * mn(p, 3, 1, 2, 2, 0, 4, 2)) + ((-8991) * mn(p, 3, 1, 2, 2, 0, 4, 0) + (324) * mn(p, 3, 1, 2, 1, 4, 1, 1))) + (((-1944) * mn(p, 3, 1, 2, 1, 2, 3, 2) + (-1620) * mn(p, 3, 1, 2, 1, 2, 3, 0)) + ((972) * mn(p, 3, 1, 2, 1, 0, 5, 3) + (5346) * mn(p, 3, 1, 2, 1, 0, 5, 1)))))) + ((((((-1701) * mn(p, 1, 2, 3, 5, 1, 0, 0) + (1944) * mn(p, 1, 2, 3, 4, 1, 1, 1)) + ((81) * mn(p, 1, 2, 3, 3, 3, 0, 1) + (-729) * mn(p, 1, 2, 3, 3, 1, 2, 2))) + (((4374) * mn(p, 1, 2, 3, 3, 1, 2, 0) + (1377) * mn(p, 1, 2, 3, 2, 3, 1, 0)) + ((-5346) * mn(p, 1, 2, 3, 2, 1, 3, 1) + (-1620) * mn(p, 1, 2, 3, 1, 3, 2, 1)))) + ((((2916) * mn(p, 1, 2, 3, 1, 1, 4, 2) + (-1701) * mn(p, 1, 2, 3, 1, 1, 4, 0)) + ((-54) * mn(p, 1, 2, 3, 0, 5, 1, 1) + (324) * mn(p, 1, 2, 3, 0, 3, 3, 2))) + (((405) * mn(p, 1, 2, 3, 0, 3, 3, 0) + (-486) * mn(p, 1, 2, 3, 0, 1, 5, 3)) + ((486) * mn(p, 1, 2, 3, 0, 1, 5, 1) + (-729) * mn(p, 1, 1, 4, 6, 0, 0, 2))))) + (((((-3645) * mn(p, 1, 1, 4, 6, 0, 0, 0) + (10206) * mn(p, 1, 1, 4, 5, 0, 1, 1)) + ((1215) * mn(p, 1, 1, 4, 4, 2, 0, 1) + (-1458) * mn(p, 1, 1, 4, 4, 0, 2, 2))) + (((2187) * mn(p, 1, 1, 4, 4, 0, 2, 0) + (2916) * mn(p, 1, 1, 4, 3, 2, 1, 0)) + ((-29160) * mn(p, 1, 1, 4, 3, 0, 3, 1) + (-81) * mn(p, 1, 1, 4, 2, 4, 0, 0)))) + ((((-11664) * mn(p, 1, 1, 4, 2, 2, 2, 1) + (16038) * mn(p, 1, 1, 4, 2, 0, 4, 2)) + ((26973) * mn(p, 1, 1, 4, 2, 0, 4, 0) + (-972) * mn(p, 1, 1, 4, 1, 4, 1, 1))) + (((5832) * mn(p, 1, 1, 4, 1, 2, 3, 2) + (4860) * mn(p, 1, 1, 4, 1, 2, 3, 0)) + ((-2916) * mn(p, 1, 1, 4, 1, 0, 5, 3) + (-16038) * mn(p, 1, 1, 4, 1, 0, 5, 1))))))) + (((((((-567) * mn(p, 0, 4, 2, 5, 1, 0, 0) + (648) * mn(p, 0, 4, 2, 4, 1, 1, 1)) + ((27) * mn(p, 0, 4, 2, 3, 3, 0, 1) + (-243) * mn(p, 0, 4, 2, 3, 1, 2, 2))) + (((1458) * mn(p, 0, 4, 2, 3, 1, 2, 0) + (459) * mn(p, 0, 4, 2, 2, 3, 1, 0)) + ((-1782) * mn(p, 0, 4, 2, 2, 1, 3, 1) + (-540) * mn(p, 0, 4, 2, 1, 3, 2, 1)))) + ((((972) * mn(p, 0, 4, 2, 1, 1, 4, 2) + (-567) * mn(p, 0, 4, 2, 1, 1, 4, 0)) + ((-18) * mn(p, 0, 4, 2, 0, 5, 1, 1) + (108) * mn(p, 0, 4, 2, 0, 3, 3, 2))) + (((135) * mn(p, 0, 4, 2, 0, 3, 3, 0) + (-162) * mn(p, 0, 4, 2, 0, 1, 5, 3)) + ((162) * mn(p, 0, 4, 2, 0, 1, 5, 1) + (-243) * mn(p, 0, 3, 3, 6, 0, 0, 2))))) + (((((-1215) * mn(p, 0, 3, 3, 6, 0, 0, 0) + (3402) * mn(p, 0, 3, 3, 5, 0, 1, 1)) + ((405) * mn(p, 0, 3, 3, 4, 2, 0, 1) + (-486) * mn(p, 0, 3, 3, 4, 0, 2, 2))) + (((729) * mn(p, 0, 3, 3, 4, 0, 2, 0) + (972) * mn(p, 0, 3, 3, 3, 2, 1, 0)) + ((-9720) * mn(p, 0, 3, 3, 3, 0, 3, 1) + (-27) * mn(p, 0, 3, 3, 2, 4, 0, 0)))) + ((((-3888) * mn(p, 0, 3, 3, 2, 2, 2, 1) + (5346) * mn(p, 0, 3, 3, 2, 0, 4, 2)) + ((8991) * mn(p, 0, 3, 3, 2, 0, 4, 0) + (-324) * mn(p, 0, 3, 3, 1, 4, 1, 1))) + (((1944) * mn(p, 0, 3, 3, 1, 2, 3, 2) + (1620) * mn(p, 0, 3, 3, 1, 2, 3, 0)) + ((-972) * mn(p, 0, 3, 3, 1, 0, 5, 3) + (-5346) * mn(p, 0, 3, 3, 1, 0, 5, 1)))))) + ((((((567) * mn(p, 0, 2, 4, 5, 1, 0, 1) + (-648) * mn(p, 0, 2, 4, 4, 1, 1, 2)) + ((-27) * mn(p, 0, 2, 4, 3, 3, 0, 2) + (243) * mn(p, 0, 2, 4, 3, 1, 2, 3))) + (((-1458) * mn(p, 0, 2, 4, 3, 1, 2, 1) + (-459) * mn(p, 0, 2, 4, 2, 3, 1, 1)) + ((1782) * mn(p, 0, 2, 4, 2, 1, 3, 2) + (540) * mn(p, 0, 2, 4, 1, 3, 2, 2)))) + ((((-972) * mn(p, 0, 2, 4, 1, 1, 4, 3) + (567) * mn(p, 0, 2, 4, 1, 1, 4, 1)) + ((18) * mn(p, 0, 2, 4, 0, 5, 1, 2) + (-108) * mn(p, 0, 2, 4, 0, 3, 3, 3))) + (((-135) * mn(p, 0, 2, 4, 0, 3, 3, 1) + (162) * mn(p, 0, 2, 4, 0, 1, 5, 4)) + ((-162) * mn(p, 0, 2, 4, 0, 1, 5, 2) + (243) * mn(p, 0, 1, 5, 6, 0, 0, 3))))) + (((((1215) * mn(p, 0, 1, 5, 6, 0, 0, 1) + (-3402) * mn(p, 0, 1, 5, 5, 0, 1, 2)) + ((-405) * mn(p, 0, 1, 5, 4, 2, 0, 2) + (486) * mn(p, 0, 1, 5, 4, 0, 2, 3))) + (((-729) * mn(p, 0, 1, 5, 4, 0, 2, 1) + (-972) * mn(p, 0, 1, 5, 3, 2, 1, 1)) + ((9720) * mn(p, 0, 1, 5, 3, 0, 3, 2) + (27) * mn(p, 0, 1, 5, 2, 4, 0, 1)))) + ((((3888) * mn(p, 0, 1, 5, 2, 2, 2, 2) + (-5346) * mn(p, 0, 1, 5, 2, 0, 4, 3)) + ((-8991) * mn(p, 0, 1, 5, 2, 0, 4, 1) + (324) * mn(p, 0, 1, 5, 1, 4, 1, 2))) + (((-1944) * mn(p, 0, 1, 5, 1, 2, 3, 3) + (-1620) * mn(p, 0, 1, 5, 1, 2, 3, 1)) + ((972) * mn(p, 0, 1, 5, 1, 0, 5, 4) + (5346) * mn(p, 0, 1, 5, 1, 0, 5, 2)))))))));
    acc_prod36_c4(p);
    assert(c4 * q == (((((((-108) * mn(p, 3, 1, 2, 0, 4, 2, 2) + ((-243) * mn(p, 3, 1, 2, 0, 4, 2, 0) + (324) * mn(p, 3, 1, 2, 0, 2, 4, 3))) + ((405) * mn(p, 3, 1, 2, 0, 2, 4, 1) + ((-1215) * mn(p, 3, 1, 2, 0, 0, 6, 2) + (729) * mn(p, 3, 1, 2, 0, 0, 6, 0)))) + (((-1701) * mn(p, 3, 0, 3, 5, 1, 0, 1) + ((972) * mn(p, 3, 0, 3, 4, 1, 1, 2) + (3402) * mn(p, 3, 0, 3, 4, 1, 1, 0))) + ((27) * mn(p, 3, 0, 3, 3, 3, 0, 2) + ((-54) * mn(p, 3, 0, 3, 3, 3, 0, 0) + (-243) * mn(p, 3, 0, 3, 3, 1, 2, 3))))) + ((((3402) * mn(p, 3, 0, 3, 3, 1, 2, 1) + ((1539) * mn(p, 3, 0, 3, 2, 3, 1, 1) + (-3402) * mn(p, 3, 0, 3, 2, 1, 3, 2))) + ((-10692) * mn(p, 3, 0, 3, 2, 1, 3, 0) + ((-972) * mn(p, 3, 0, 3, 1, 3, 2, 2) + (-2430) * mn(p, 3, 0, 3, 1, 3, 2, 0)))) + (((972) * mn(p, 3, 0, 3, 1, 1, 4, 3) + ((7047) * mn(p, 3, 0, 3, 1, 1, 4, 1) + (216) * mn(p, 3, 0, 3, 0, 3, 3, 3))) + ((729) * mn(p, 3, 0, 3, 0, 3, 3, 1) + ((-1944) * mn(p, 3, 0, 3, 0, 1, 5, 2) + (1458) * mn(p, 3, 0, 3, 0, 1, 5, 0)))))) + (((((324) * mn(p, 1, 1, 4, 0, 4, 2, 2) + ((729) * mn(p, 1, 1, 4, 0, 4, 2, 0) + (-972) * mn(p, 1, 1, 4, 0, 2, 4, 3))) + ((-1215) * mn(p, 1, 1, 4, 0, 2, 4, 1) + ((3645) * mn(p, 1, 1, 4, 0, 0, 6, 2) + (-2187) * mn(p, 1, 1, 4, 0, 0, 6, 0)))) + (((5103) * mn(p, 1, 0, 5, 5, 1, 0, 1) + ((-2916) * mn(p, 1, 0, 5, 4, 1, 1, 2) + (-10206) * mn(p, 1, 0, 5, 4, 1, 1, 0))) + ((-81) * mn(p, 1, 0, 5, 3, 3, 0, 2) + ((162) * mn(p, 1, 0, 5, 3, 3, 0, 0) + (729) * mn(p, 1, 0, 5, 3, 1, 2, 3))))) + ((((-10206) * mn(p, 1, 0, 5, 3, 1, 2, 1) + ((-4617) * mn(p, 1, 0, 5, 2, 3, 1, 1) + (10206) * mn(p, 1, 0, 5, 2, 1, 3, 2))) + ((32076) * mn(p, 1, 0, 5, 2, 1, 3, 0) + ((2916) * mn(p, 1, 0, 5, 1, 3, 2, 2) + (7290) * mn(p, 1, 0, 5, 1, 3, 2, 0)))) + (((-2916) * mn(p, 1, 0, 5, 1, 1, 4, 3) + ((-21141) * mn(p, 1, 0, 5, 1, 1, 4, 1) + (-648) * mn(p, 1, 0, 5, 0, 3, 3, 3))) + ((-2187) * mn(p, 1, 0, 5, 0, 3, 3, 1) + ((5832) * mn(p, 1, 0, 5, 0, 1, 5, 2) + (-4374) * mn(p, 1, 0, 5, 0, 1, 5, 0))))))) + ((((((108) * mn(p, 0, 3, 3, 0, 4, 2, 2) + ((243) * mn(p, 0, 3, 3, 0, 4, 2, 0) + (-324) * mn(p, 0, 3, 3, 0, 2, 4, 3))) + ((-405) * mn(p, 0, 3, 3, 0, 2, 4, 1) + ((1215) * mn(p, 0, 3, 3, 0, 0, 6, 2) + (-729) * mn(p, 0, 3, 3, 0, 0, 6, 0)))) + (((1701) * mn(p, 0, 2, 4, 5, 1, 0, 1) + ((-972) * mn(p, 0, 2, 4, 4, 1, 1, 2) + (-3402) * mn(p, 0, 2, 4, 4, 1, 1, 0))) + ((-27) * mn(p, 0, 2, 4, 3, 3, 0, 2) + ((54) * mn(p, 0, 2, 4, 3, 3, 0, 0) + (243) * mn(p, 0, 2, 4, 3, 1, 2, 3))))) + ((((-3402) * mn(p, 0, 2, 4, 3, 1, 2, 1) + ((-1539) * mn(p, 0, 2, 4, 2, 3, 1, 1) + (3402) * mn(p, 0, 2, 4, 2, 1, 3, 2))) + ((10692) * mn(p, 0, 2, 4, 2, 1, 3, 0) + ((972) * mn(p, 0, 2, 4, 1, 3, 2, 2) + (2430) * mn(p, 0, 2, 4, 1, 3, 2, 0)))) + (((-972) * mn(p, 0, 2, 4, 1, 1, 4, 3) + ((-7047) * mn(p, 0, 2, 4, 1, 1, 4, 1) + (-216) * mn(p, 0, 2, 4, 0, 3, 3, 3))) + ((-729) * mn(p, 0, 2, 4, 0, 3, 3, 1) + ((1944) * mn(p, 0, 2, 4, 0, 1, 5, 2) + (-1458) * mn(p, 0, 2, 4, 0, 1, 5, 0)))))) + (((((-108) * mn(p, 0, 1, 5, 0, 4, 2, 3) + ((-243) * mn(p, 0, 1, 5, 0, 4, 2, 1) + (324) * mn(p, 0, 1, 5, 0, 2, 4, 4))) + ((405) * mn(p, 0, 1, 5, 0, 2, 4, 2) + ((-1215) * mn(p, 0, 1, 5, 0, 0, 6, 3) + (729) * mn(p, 0, 1, 5, 0, 0, 6, 1)))) + (((-1701) * mn(p, 0, 0, 6, 5, 1, 0, 2) + ((972) * mn(p, 0, 0, 6, 4, 1, 1, 3) + (3402) * mn(p, 0, 0, 6, 4, 1, 1, 1))) + ((27) * mn(p, 0, 0, 6, 3, 3, 0, 3) + ((-54) * mn(p, 0, 0, 6, 3, 3, 0, 1) + (-243) * mn(p, 0, 0, 6, 3, 1, 2, 4))))) + ((((3402) * mn(p, 0, 0, 6, 3, 1, 2, 2) + ((1539) * mn(p, 0, 0, 6, 2, 3, 1, 2) + (-3402) * mn(p, 0, 0, 6, 2, 1, 3, 3))) + ((-10692) * mn(p, 0, 0, 6, 2, 1, 3, 1) + ((-972) * mn(p, 0, 0, 6, 1, 3, 2, 3) + (-2430) * mn(p, 0, 0, 6, 1, 3, 2, 1)))) + (((972) * mn(p, 0, 0, 6, 1, 1, 4, 4) + ((7047) * mn(p, 0, 0, 6, 1, 1, 4, 2) + (216) * mn(p, 0, 0, 6, 0, 3, 3, 4))) + ((729) * mn(p, 0, 0, 6, 0, 3, 3, 2) + ((-1944) * mn(p, 0, 0, 6, 0, 1, 5, 3) + (1458) * mn(p, 0, 0, 6, 0, 1, 5, 1)))))))));
    assert(cc4 * q == (((((((((243) * mn(p, 6, 0, 0, 5, 1, 0, 0) + ((-486) * mn(p, 6, 0, 0, 4, 1, 1, 1) + (-27) * mn(p, 6, 0, 0, 3, 3, 0, 1))) + ((243) * mn(p, 6, 0, 0, 3, 1, 2, 2) + ((486) * mn(p, 6, 0, 0, 3, 1, 2, 0) + (81) * mn(p, 6, 0, 0, 2, 3, 1, 0)))) + (((-486) * mn(p, 6, 0, 0, 2, 1, 3, 1) + ((243) * mn(p, 6, 0, 0, 1, 1, 4, 0) + (-27) * mn(p, 6, 0, 0, 0, 3, 3, 0))) + (((243) * mn(p, 5, 1, 0, 6, 0, 0, 0) + (-486) * mn(p, 5, 1, 0, 5, 0, 1, 1)) + ((-81) * mn(p, 5, 1, 0, 4, 2, 0, 1) + (243) * mn(p, 5, 1, 0, 4, 0, 2, 2))))) + ((((243) * mn(p, 5, 1, 0, 4, 0, 2, 0) + ((324) * mn(p, 5, 1, 0, 3, 2, 1, 0) + (27) * mn(p, 5, 1, 0, 2, 4, 0, 0))) + ((-243) * mn(p, 5, 1, 0, 2, 0, 4, 2) + ((-243) * mn(p, 5, 1, 0, 2, 0, 4, 0) + (-324) * mn(p, 5, 1, 0, 1, 2, 3, 0)))) + (((486) * mn(p, 5, 1, 0, 1, 0, 5, 1) + ((-27) * mn(p, 5, 1, 0, 0, 4, 2, 0) + (81) * mn(p, 5, 1, 0, 0, 2, 4, 1))) + (((-243) * mn(p, 5, 1, 0, 0, 0, 6, 0) + (-486) * mn(p, 5, 0, 1, 5, 1, 0, 1)) + ((486) * mn(p, 5, 0, 1, 4, 1, 1, 2) + (1458) * mn(p, 5, 0, 1, 4, 1, 1, 0)))))) + (((((162) * mn(p, 5, 0, 1, 3, 3, 0, 0) + ((-1944) * mn(p, 5, 0, 1, 3, 1, 2, 1) + (972) * mn(p, 5, 0, 1, 2, 1, 3, 0))) + ((-486) * mn(p, 5, 0, 1, 1, 3, 2, 0) + ((486) * mn(p, 5, 0, 1, 1, 1, 4, 1) + (162) * mn(p, 5, 0, 1, 0, 3, 3, 1)))) + (((-486) * mn(p, 5, 0, 1, 0, 1, 5, 0) + ((-81) * mn(p, 4, 2, 0, 5, 1, 0, 1) + (486) * mn(p, 4, 2, 0, 4, 1, 1, 0))) + (((27) * mn(p, 4, 2, 0, 3, 3, 0, 0) + (-162) * mn(p, 4, 2, 0, 3, 1, 2, 1)) + ((27) * mn(p, 4, 2, 0, 2, 3, 1, 1) + (81) * mn(p, 4, 2, 0, 2, 1, 3, 2))))) + ((((-648) * mn(p, 4, 2, 0, 2, 1, 3, 0) + ((-189) * mn(p, 4, 2, 0, 1, 3, 2, 0) + (243) * mn(p, 4, 2, 0, 1, 1, 4, 1))) + (((-9) * mn(p, 4, 2, 0, 0, 5, 1, 0) + (54) * mn(p, 4, 2, 0, 0, 3, 3, 1)) + ((-81) * mn(p, 4, 2, 0, 0, 1, 5, 2) + (162) * mn(p, 4, 2, 0, 0, 1, 5, 0)))) + (((-486) * mn(p, 4, 1, 1, 6, 0, 0, 1) + ((486) * mn(p, 4, 1, 1, 5, 0, 1, 2) + (1458) * mn(p, 4, 1, 1, 5, 0, 1, 0))) + (((486) * mn(p, 4, 1, 1, 4, 2, 0, 0) + (-1215) * mn(p, 4, 1, 1, 4, 0, 2, 1)) + ((-162) * mn(p, 4, 1, 1, 3, 2, 1, 1) + (-972) * mn(p, 4, 1, 1, 3, 0, 3, 2))))))) + ((((((-972) * mn(p, 4, 1, 1, 3, 0, 3, 0) + ((-27) * mn(p, 4, 1, 1, 2, 4, 0, 1) + (-1944) * mn(p, 4, 1, 1, 2, 2, 2, 0))) + ((243) * mn(p, 4, 1, 1, 2, 0, 4, 3) + ((3888) * mn(p, 4, 1, 1, 2, 0, 4, 1) + (-162) * mn(p, 4, 1, 1, 1, 4, 1, 0)))) + (((1458) * mn(p, 4, 1, 1, 1, 2, 3, 1) + ((-972) * mn(p, 4, 1, 1, 1, 0, 5, 2) + (-2430) * mn(p, 4, 1, 1, 1, 0, 5, 0))) + (((108) * mn(p, 4, 1, 1, 0, 4, 2, 1) + (-324) * mn(p, 4, 1, 1, 0, 2, 4, 2)) + ((162) * mn(p, 4, 1, 1, 0, 2, 4, 0) + (729) * mn(p, 4, 1, 1, 0, 0, 6, 1))))) + ((((243) * mn(p, 4, 0, 2, 5, 1, 0, 2) + ((243) * mn(p, 4, 0, 2, 5, 1, 0, 0) + (-1215) * mn(p, 4, 0, 2, 4, 1, 1, 1))) + (((-243) * mn(p, 4, 0, 2, 3, 1, 2, 2) + (-1458) * mn(p, 4, 0, 2, 3, 1, 2, 0)) + ((-81) * mn(p, 4, 0, 2, 2, 3, 1, 2) + (-891) * mn(p, 4, 0, 2, 2, 3, 1, 0)))) + (((-243) * mn(p, 4, 0, 2, 2, 1, 3, 3) + ((5832) * mn(p, 4, 0, 2, 2, 1, 3, 1) + (1215) * mn(p, 4, 0, 2, 1, 3, 2, 1))) + (((-729) * mn(p, 4, 0, 2, 1, 1, 4, 2) + (-5589) * mn(p, 4, 0, 2, 1, 1, 4, 0)) + ((-324) * mn(p, 4, 0, 2, 0, 3, 3, 2) + (81) * mn(p, 4, 0, 2, 0, 3, 3, 0)))))) + (((((1215) * mn(p, 4, 0, 2, 0, 1, 5, 1) + ((-27) * mn(p, 3, 3, 0, 6, 0, 0, 1) + (162) * mn(p, 3, 3, 0, 5, 0, 1, 0))) + ((27) * mn(p, 3, 3, 0, 4, 2, 0, 0) + ((-540) * mn(p, 3, 3, 0, 3, 0, 3, 0) + (-162) * mn(p, 3, 3, 0, 2, 2, 2, 0)))) + (((405) * mn(p, 3, 3, 0, 2, 0, 4, 1) + ((-18) * mn(p, 3, 3, 0, 1, 4, 1, 0) + (108) * mn(p, 3, 3, 0, 1, 2, 3, 1))) + (((-162) * mn(p, 3, 3, 0, 1, 0, 5, 2) + (162) * mn(p, 3, 3, 0, 1, 0, 5, 0)) + ((-1) * mn(p, 3, 3, 0, 0, 6, 0, 0) + (9) * mn(p, 3, 3, 0, 0, 4, 2, 1))))) + ((((-27) * mn(p, 3, 3, 0, 0, 2, 4, 2) + ((27) * mn(p, 3, 3, 0, 0, 2, 4, 0) + (27) * mn(p, 3, 3, 0, 0, 0, 6, 3))) + (((-54) * mn(p, 3, 3, 0, 0, 0, 6, 1) + (324) * mn(p, 3, 2, 1, 5, 1, 0, 0)) + ((-162) * mn(p, 3, 2, 1, 4, 1, 1, 1) + (-1944) * mn(p, 3, 2, 1, 3, 1, 2, 0)))) + (((-540) * mn(p, 3, 2, 1, 2, 3, 1, 0) + ((2268) * mn(p, 3, 2, 1, 2, 1, 3, 1) + (540) * mn(p, 3, 2, 1, 1, 3, 2, 1))) + (((-972) * mn(p, 3, 2, 1, 1, 1, 4, 2) + (324) * mn(p, 3, 2, 1, 1, 1, 4, 0)) + ((18) * mn(p, 3, 2, 1, 0, 5, 1, 1) + (-108) * mn(p, 3, 2, 1, 0, 3, 3, 2)))))))) + (((((((-108) * mn(p, 3, 2, 1, 0, 3, 3, 0) + ((162) * mn(p, 3, 2, 1, 0, 1, 5, 3) + (-162) * mn(p, 3, 2, 1, 0, 1, 5, 1))) + ((243) * mn(p, 3, 1, 2, 6, 0, 0, 2) + ((486) * mn(p, 3, 1, 2, 6, 0, 0, 0) + (-1944) * mn(p, 3, 1, 2, 5, 0, 1, 1)))) + (((-162) * mn(p, 3, 1, 2, 4, 2, 0, 1) + ((-243) * mn(p, 3, 1, 2, 4, 0, 2, 2) + (-1458) * mn(p, 3, 1, 2, 4, 0, 2, 0))) + (((-1944) * mn(p, 3, 1, 2, 3, 2, 1, 0) + (9720) * mn(p, 3, 1, 2, 3, 0, 3, 1)) + ((-54) * mn(p, 3, 1, 2, 2, 4, 0, 0) + (3888) * mn(p, 3, 1, 2, 2, 2, 2, 1))))) + ((((-4617) * mn(p, 3, 1, 2, 2, 0, 4, 2) + ((-8262) * mn(p, 3, 1, 2, 2, 0, 4, 0) + (324) * mn(p, 3, 1, 2, 1, 4, 1, 1))) + (((-1944) * mn(p, 3, 1, 2, 1, 2, 3, 2) + (-648) * mn(p, 3, 1, 2, 1, 2, 3, 0)) + ((972) * mn(p, 3, 1, 2, 1, 0, 5, 3) + (3888) * mn(p, 3, 1, 2, 1, 0, 5, 1)))) + (((-108) * mn(p, 3, 1, 2, 0, 4, 2, 2) + ((-162) * mn(p, 3, 1, 2, 0, 4, 2, 0) + (324) * mn(p, 3, 1, 2, 0, 2, 4, 3))) + (((162) * mn(p, 3, 1, 2, 0, 2, 4, 1) + (-1215) * mn(p, 3, 1, 2, 0, 0, 6, 2)) + ((1458) * mn(p, 3, 1, 2, 0, 0, 6, 0) + (-972) * mn(p, 3, 0, 3, 4, 1, 1, 2)))))) + (((((-972) * mn(p, 3, 0, 3, 4, 1, 1, 0) + ((-540) * mn(p, 3, 0, 3, 3, 3, 0, 0) + (9720) * mn(p, 3, 0, 3, 3, 1, 2, 1))) + ((1620) * mn(p, 3, 0, 3, 2, 3, 1, 1) + ((-3888) * mn(p, 3, 0, 3, 2, 1, 3, 2) + (-13608) * mn(p, 3, 0, 3, 2, 1, 3, 0)))) + (((-972) * mn(p, 3, 0, 3, 1, 3, 2, 2) + ((-972) * mn(p, 3, 0, 3, 1, 3, 2, 0) + (972) * mn(p, 3, 0, 3, 1, 1, 4, 3))) + (((5832) * mn(p, 3, 0, 3, 1, 1, 4, 1) + (216) * mn(p, 3, 0, 3, 0, 3, 3, 3)) + ((216) * mn(p, 3, 0, 3, 0, 3, 3, 1) + (-1944) * mn(p, 3, 0, 3, 0, 1, 5, 2))))) + ((((2916) * mn(p, 3, 0, 3, 0, 1, 5, 0) + ((-243) * mn(p, 2, 3, 1, 6, 0, 0, 0) + (486) * mn(p, 2, 3, 1, 5, 0, 1, 1))) + (((81) * mn(p, 2, 3, 1, 4, 2, 0, 1) + (-243) * mn(p, 2, 3, 1, 4, 0, 2, 2)) + ((-243) * mn(p, 2, 3, 1, 4, 0, 2, 0) + (-324) * mn(p, 2, 3, 1, 3, 2, 1, 0)))) + (((-27) * mn(p, 2, 3, 1, 2, 4, 0, 0) + ((243) * mn(p, 2, 3, 1, 2, 0, 4, 2) + (243) * mn(p, 2, 3, 1, 2, 0, 4, 0))) + (((324) * mn(p, 2, 3, 1, 1, 2, 3, 0) + (-486) * mn(p, 2, 3, 1, 1, 0, 5, 1)) + ((27) * mn(p, 2, 3, 1, 0, 4, 2, 0) + (-81) * mn(p, 2, 3, 1, 0, 2, 4, 1))))))) + ((((((243) * mn(p, 2, 3, 1, 0, 0, 6, 0) + ((729) * mn(p, 2, 2, 2, 5, 1, 0, 1) + (-486) * mn(p, 2, 2, 2, 4, 1, 1, 2))) + ((-2916) * mn(p, 2, 2, 2, 4, 1, 1, 0) + ((-243) * mn(p, 2, 2, 2, 3, 3, 0, 0) + (2430) * mn(p, 2, 2, 2, 3, 1, 2, 1)))) + (((-81) * mn(p, 2, 2, 2, 2, 3, 1, 1) + ((-243) * mn(p, 2, 2, 2, 2, 1, 3, 2) + (972) * mn(p, 2, 2, 2, 2, 1, 3, 0))) + (((1053) * mn(p, 2, 2, 2, 1, 3, 2, 0) + (-1215) * mn(p, 2, 2, 2, 1, 1, 4, 1)) + ((27) * mn(p, 2, 2, 2, 0, 5, 1, 0) + (-324) * mn(p, 2, 2, 2, 0, 3, 3, 1))))) + ((((243) * mn(p, 2, 2, 2, 0, 1, 5, 2) + ((1701) * mn(p, 2, 1, 3, 6, 0, 0, 1) + (-1944) * mn(p, 2, 1, 3, 5, 0, 1, 2))) + (((-4374) * mn(p, 2, 1, 3, 5, 0, 1, 0) + (-81) * mn(p, 2, 1, 3, 4, 2, 0, 2)) + ((-1458) * mn(p, 2, 1, 3, 4, 2, 0, 0) + (243) * mn(p, 2, 1, 3, 4, 0, 2, 3)))) + (((3888) * mn(p, 2, 1, 3, 4, 0, 2, 1) + ((810) * mn(p, 2, 1, 3, 3, 2, 1, 1) + (2916) * mn(p, 2, 1, 3, 3, 0, 3, 2))) + (((2916) * mn(p, 2, 1, 3, 3, 0, 3, 0) + (108) * mn(p, 2, 1, 3, 2, 4, 0, 1)) + ((5832) * mn(p, 2, 1, 3, 2, 2, 2, 0) + (-972) * mn(p, 2, 1, 3, 2, 0, 4, 3)))))) + (((((-11907) * mn(p, 2, 1, 3, 2, 0, 4, 1) + ((486) * mn(p, 2, 1, 3, 1, 4, 1, 0) + (-4698) * mn(p, 2, 1, 3, 1, 2, 3, 1))) + ((3402) * mn(p, 2, 1, 3, 1, 0, 5, 2) + ((7290) * mn(p, 2, 1, 3, 1, 0, 5, 0) + (-351) * mn(p, 2, 1, 3, 0, 4, 2, 1)))) + (((1053) * mn(p, 2, 1, 3, 0, 2, 4, 2) + ((-486) * mn(p, 2, 1, 3, 0, 2, 4, 0) + (-2430) * mn(p, 2, 1, 3, 0, 0, 6, 1))) + (((-1215) * mn(p, 2, 0, 4, 5, 1, 0, 2) + (-2916) * mn(p, 2, 0, 4, 5, 1, 0, 0)) + ((486) * mn(p, 2, 0, 4, 4, 1, 1, 3) + (9477) * mn(p, 2, 0, 4, 4, 1, 1, 1))))) + ((((405) * mn(p, 2, 0, 4, 3, 3, 0, 1) + ((-3402) * mn(p, 2, 0, 4, 3, 1, 2, 2) + (243) * mn(p, 2, 0, 4, 2, 3, 1, 2))) + (((1944) * mn(p, 2, 0, 4, 2, 3, 1, 0) + (729) * mn(p, 2, 0, 4, 2, 1, 3, 3)) + ((-12150) * mn(p, 2, 0, 4, 2, 1, 3, 1) + (-4131) * mn(p, 2, 0, 4, 1, 3, 2, 1)))) + (((2673) * mn(p, 2, 0, 4, 1, 1, 4, 2) + ((14580) * mn(p, 2, 0, 4, 1, 1, 4, 0) + (1134) * mn(p, 2, 0, 4, 0, 3, 3, 2))) + (((-4131) * mn(p, 2, 0, 4, 0, 1, 5, 1) + (81) * mn(p, 1, 4, 1, 5, 1, 0, 1)) + ((-486) * mn(p, 1, 4, 1, 4, 1, 1, 0) + (-27) * mn(p, 1, 4, 1, 3, 3, 0, 0))))))))) + ((((((((162) * mn(p, 1, 4, 1, 3, 1, 2, 1) + ((-27) * mn(p, 1, 4, 1, 2, 3, 1, 1) + (-81) * mn(p, 1, 4, 1, 2, 1, 3, 2))) + ((648) * mn(p, 1, 4, 1, 2, 1, 3, 0) + ((189) * mn(p, 1, 4, 1, 1, 3, 2, 0) + (-243) * mn(p, 1, 4, 1, 1, 1, 4, 1)))) + (((9) * mn(p, 1, 4, 1, 0, 5, 1, 0) + ((-54) * mn(p, 1, 4, 1, 0, 3, 3, 1) + (81) * mn(p, 1, 4, 1, 0, 1, 5, 2))) + (((-162) * mn(p, 1, 4, 1, 0, 1, 5, 0) + (567) * mn(p, 1, 3, 2, 6, 0, 0, 1)) + ((-486) * mn(p, 1, 3, 2, 5, 0, 1, 2) + (-1944) * mn(p, 1, 3, 2, 5, 0, 1, 0))))) + ((((-567) * mn(p, 1, 3, 2, 4, 2, 0, 0) + ((1215) * mn(p, 1, 3, 2, 4, 0, 2, 1) + (162) * mn(p, 1, 3, 2, 3, 2, 1, 1))) + (((972) * mn(p, 1, 3, 2, 3, 0, 3, 2) + (2592) * mn(p, 1, 3, 2, 3, 0, 3, 0)) + ((27) * mn(p, 1, 3, 2, 2, 4, 0, 1) + (2430) * mn(p, 1, 3, 2, 2, 2, 2, 0)))) + (((-243) * mn(p, 1, 3, 2, 2, 0, 4, 3) + ((-5103) * mn(p, 1, 3, 2, 2, 0, 4, 1) + (216) * mn(p, 1, 3, 2, 1, 4, 1, 0))) + (((-1782) * mn(p, 1, 3, 2, 1, 2, 3, 1) + (1458) * mn(p, 1, 3, 2, 1, 0, 5, 2)) + ((1944) * mn(p, 1, 3, 2, 1, 0, 5, 0) + (3) * mn(p, 1, 3, 2, 0, 6, 0, 0)))))) + (((((-135) * mn(p, 1, 3, 2, 0, 4, 2, 1) + ((405) * mn(p, 1, 3, 2, 0, 2, 4, 2) + (-243) * mn(p, 1, 3, 2, 0, 2, 4, 0))) + ((-81) * mn(p, 1, 3, 2, 0, 0, 6, 3) + ((-567) * mn(p, 1, 3, 2, 0, 0, 6, 1) + (-324) * mn(p, 1, 2, 3, 5, 1, 0, 2)))) + (((-2673) * mn(p, 1, 2, 3, 5, 1, 0, 0) + ((5103) * mn(p, 1, 2, 3, 4, 1, 1, 1) + (189) * mn(p, 1, 2, 3, 3, 3, 0, 1))) + (((-1377) * mn(p, 1, 2, 3, 3, 1, 2, 2) + (4374) * mn(p, 1, 2, 3, 3, 1, 2, 0)) + ((108) * mn(p, 1, 2, 3, 2, 3, 1, 2) + (2025) * mn(p, 1, 2, 3, 2, 3, 1, 0))))) + ((((324) * mn(p, 1, 2, 3, 2, 1, 3, 3) + ((-10368) * mn(p, 1, 2, 3, 2, 1, 3, 1) + (-3024) * mn(p, 1, 2, 3, 1, 3, 2, 1))) + (((3888) * mn(p, 1, 2, 3, 1, 1, 4, 2) + (3159) * mn(p, 1, 2, 3, 1, 1, 4, 0)) + ((-63) * mn(p, 1, 2, 3, 0, 5, 1, 1) + (702) * mn(p, 1, 2, 3, 0, 3, 3, 2)))) + (((405) * mn(p, 1, 2, 3, 0, 3, 3, 0) + ((-567) * mn(p, 1, 2, 3, 0, 1, 5, 3) + (-567) * mn(p, 1, 2, 3, 0, 1, 5, 1))) + (((-1215) * mn(p, 1, 1, 4, 6, 0, 0, 2) + (-3645) * mn(p, 1, 1, 4, 6, 0, 0, 0)) + ((486) * mn(p, 1, 1, 4, 5, 0, 1, 3) + (11664) * mn(p, 1, 1, 4, 5, 0, 1, 1))))))) + ((((((1701) * mn(p, 1, 1, 4, 4, 2, 0, 1) + ((-2673) * mn(p, 1, 1, 4, 4, 0, 2, 2) + (2187) * mn(p, 1, 1, 4, 4, 0, 2, 0))) + ((-162) * mn(p, 1, 1, 4, 3, 2, 1, 2) + ((2916) * mn(p, 1, 1, 4, 3, 2, 1, 0) + (-972) * mn(p, 1, 1, 4, 3, 0, 3, 3)))) + (((-30132) * mn(p, 1, 1, 4, 3, 0, 3, 1) + ((-27) * mn(p, 1, 1, 4, 2, 4, 0, 2) + (-81) * mn(p, 1, 1, 4, 2, 4, 0, 0))) + (((-13608) * mn(p, 1, 1, 4, 2, 2, 2, 1) + (243) * mn(p, 1, 1, 4, 2, 0, 4, 4)) + ((19926) * mn(p, 1, 1, 4, 2, 0, 4, 2) + (26973) * mn(p, 1, 1, 4, 2, 0, 4, 0))))) + ((((-1134) * mn(p, 1, 1, 4, 1, 4, 1, 1) + ((7290) * mn(p, 1, 1, 4, 1, 2, 3, 2) + (4860) * mn(p, 1, 1, 4, 1, 2, 3, 0))) + (((-3888) * mn(p, 1, 1, 4, 1, 0, 5, 3) + (-18468) * mn(p, 1, 1, 4, 1, 0, 5, 1)) + ((432) * mn(p, 1, 1, 4, 0, 4, 2, 2) + (729) * mn(p, 1, 1, 4, 0, 4, 2, 0)))) + (((-1296) * mn(p, 1, 1, 4, 0, 2, 4, 3) + ((-1053) * mn(p, 1, 1, 4, 0, 2, 4, 1) + (4374) * mn(p, 1, 1, 4, 0, 0, 6, 2))) + (((-2187) * mn(p, 1, 1, 4, 0, 0, 6, 0) + (243) * mn(p, 1, 0, 5, 5, 1, 0, 3)) + ((6075) * mn(p, 1, 0, 5, 5, 1, 0, 1) + (-5589) * mn(p, 1, 0, 5, 4, 1, 1, 2)))))) + (((((-10206) * mn(p, 1, 0, 5, 4, 1, 1, 0) + ((-162) * mn(p, 1, 0, 5, 3, 3, 0, 2) + (162) * mn(p, 1, 0, 5, 3, 3, 0, 0))) + ((1215) * mn(p, 1, 0, 5, 3, 1, 2, 3) + ((-10206) * mn(p, 1, 0, 5, 3, 1, 2, 1) + (-81) * mn(p, 1, 0, 5, 2, 3, 1, 3)))) + (((-5265) * mn(p, 1, 0, 5, 2, 3, 1, 1) + ((-243) * mn(p, 1, 0, 5, 2, 1, 3, 4) + (14580) * mn(p, 1, 0, 5, 2, 1, 3, 2))) + (((32076) * mn(p, 1, 0, 5, 2, 1, 3, 0) + (4131) * mn(p, 1, 0, 5, 1, 3, 2, 2)) + ((7290) * mn(p, 1, 0, 5, 1, 3, 2, 0) + (-3645) * mn(p, 1, 0, 5, 1, 1, 4, 3))))) + ((((-26001) * mn(p, 1, 0, 5, 1, 1, 4, 1) + ((-972) * mn(p, 1, 0, 5, 0, 3, 3, 3) + (-2187) * mn(p, 1, 0, 5, 0, 3, 3, 1))) + (((7047) * mn(p, 1, 0, 5, 0, 1, 5, 2) + (-4374) * mn(p, 1, 0, 5, 0, 1, 5, 0)) + ((27) * mn(p, 0, 5, 1, 6, 0, 0, 1) + (-162) * mn(p, 0, 5, 1, 5, 0, 1, 0)))) + (((-27) * mn(p, 0, 5, 1, 4, 2, 0, 0) + ((540) * mn(p, 0, 5, 1, 3, 0, 3, 0) + (162) * mn(p, 0, 5, 1, 2, 2, 2, 0))) + (((-405) * mn(p, 0, 5, 1, 2, 0, 4, 1) + (18) * mn(p, 0, 5, 1, 1, 4, 1, 0)) + ((-108) * mn(p, 0, 5, 1, 1, 2, 3, 1) + (162) * mn(p, 0, 5, 1, 1, 0, 5, 2)))))))) + (((((((-162) * mn(p, 0, 5, 1, 1, 0, 5, 0) + ((1) * mn(p, 0, 5, 1, 0, 6, 0, 0) + (-9) * mn(p, 0, 5, 1, 0, 4, 2, 1))) + ((27) * mn(p, 0, 5, 1, 0, 2, 4, 2) + ((-27) * mn(p, 0, 5, 1, 0, 2, 4, 0) + (-27) * mn(p, 0, 5, 1, 0, 0, 6, 3)))) + (((54) * mn(p, 0, 5, 1, 0, 0, 6, 1) + ((-567) * mn(p, 0, 4, 2, 5, 1, 0, 0) + (648) * mn(p, 0, 4, 2, 4, 1, 1, 1))) + (((27) * mn(p, 0, 4, 2, 3, 3, 0, 1) + (-243) * mn(p, 0, 4, 2, 3, 1, 2, 2)) + ((1458) * mn(p, 0, 4, 2, 3, 1, 2, 0) + (459) * mn(p, 0, 4, 2, 2, 3, 1, 0))))) + ((((-1782) * mn(p, 0, 4, 2, 2, 1, 3, 1) + ((-540) * mn(p, 0, 4, 2, 1, 3, 2, 1) + (972) * mn(p, 0, 4, 2, 1, 1, 4, 2))) + (((-567) * mn(p, 0, 4, 2, 1, 1, 4, 0) + (-18) * mn(p, 0, 4, 2, 0, 5, 1, 1)) + ((108) * mn(p, 0, 4, 2, 0, 3, 3, 2) + (135) * mn(p, 0, 4, 2, 0, 3, 3, 0)))) + (((-162) * mn(p, 0, 4, 2, 0, 1, 5, 3) + ((162) * mn(p, 0, 4, 2, 0, 1, 5, 1) + (-270) * mn(p, 0, 3, 3, 6, 0, 0, 2))) + (((-1215) * mn(p, 0, 3, 3, 6, 0, 0, 0) + (3564) * mn(p, 0, 3, 3, 5, 0, 1, 1)) + ((432) * mn(p, 0, 3, 3, 4, 2, 0, 1) + (-486) * mn(p, 0, 3, 3, 4, 0, 2, 2)))))) + (((((729) * mn(p, 0, 3, 3, 4, 0, 2, 0) + ((972) * mn(p, 0, 3, 3, 3, 2, 1, 0) + (-10260) * mn(p, 0, 3, 3, 3, 0, 3, 1))) + ((-27) * mn(p, 0, 3, 3, 2, 4, 0, 0) + ((-4050) * mn(p, 0, 3, 3, 2, 2, 2, 1) + (5751) * mn(p, 0, 3, 3, 2, 0, 4, 2)))) + (((8991) * mn(p, 0, 3, 3, 2, 0, 4, 0) + ((-342) * mn(p, 0, 3, 3, 1, 4, 1, 1) + (2052) * mn(p, 0, 3, 3, 1, 2, 3, 2))) + (((1620) * mn(p, 0, 3, 3, 1, 2, 3, 0) + (-1134) * mn(p, 0, 3, 3, 1, 0, 5, 3)) + ((-5184) * mn(p, 0, 3, 3, 1, 0, 5, 1) + (-1) * mn(p, 0, 3, 3, 0, 6, 0, 1))))) + ((((117) * mn(p, 0, 3, 3, 0, 4, 2, 2) + ((243) * mn(p, 0, 3, 3, 0, 4, 2, 0) + (-351) * mn(p, 0, 3, 3, 0, 2, 4, 3))) + (((-378) * mn(p, 0, 3, 3, 0, 2, 4, 1) + (27) * mn(p, 0, 3, 3, 0, 0, 6, 4)) + ((1161) * mn(p, 0, 3, 3, 0, 0, 6, 2) + (-729) * mn(p, 0, 3, 3, 0, 0, 6, 0)))) + (((2268) * mn(p, 0, 2, 4, 5, 1, 0, 1) + ((-1620) * mn(p, 0, 2, 4, 4, 1, 1, 2) + (-3402) * mn(p, 0, 2, 4, 4, 1, 1, 0))) + (((-54) * mn(p, 0, 2, 4, 3, 3, 0, 2) + (54) * mn(p, 0, 2, 4, 3, 3, 0, 0)) + ((486) * mn(p, 0, 2, 4, 3, 1, 2, 3) + (-4860) * mn(p, 0, 2, 4, 3, 1, 2, 1))))))) + ((((((-1998) * mn(p, 0, 2, 4, 2, 3, 1, 1) + ((5184) * mn(p, 0, 2, 4, 2, 1, 3, 2) + (10692) * mn(p, 0, 2, 4, 2, 1, 3, 0))) + ((1512) * mn(p, 0, 2, 4, 1, 3, 2, 2) + ((2430) * mn(p, 0, 2, 4, 1, 3, 2, 0) + (-1944) * mn(p, 0, 2, 4, 1, 1, 4, 3)))) + (((-6480) * mn(p, 0, 2, 4, 1, 1, 4, 1) + ((18) * mn(p, 0, 2, 4, 0, 5, 1, 2) + (-324) * mn(p, 0, 2, 4, 0, 3, 3, 3))) + (((-864) * mn(p, 0, 2, 4, 0, 3, 3, 1) + (162) * mn(p, 0, 2, 4, 0, 1, 5, 4)) + ((1782) * mn(p, 0, 2, 4, 0, 1, 5, 2) + (-1458) * mn(p, 0, 2, 4, 0, 1, 5, 0))))) + ((((243) * mn(p, 0, 1, 5, 6, 0, 0, 3) + ((1215) * mn(p, 0, 1, 5, 6, 0, 0, 1) + (-3402) * mn(p, 0, 1, 5, 5, 0, 1, 2))) + (((-405) * mn(p, 0, 1, 5, 4, 2, 0, 2) + (486) * mn(p, 0, 1, 5, 4, 0, 2, 3)) + ((-729) * mn(p, 0, 1, 5, 4, 0, 2, 1) + (-972) * mn(p, 0, 1, 5, 3, 2, 1, 1)))) + (((9720) * mn(p, 0, 1, 5, 3, 0, 3, 2) + ((27) * mn(p, 0, 1, 5, 2, 4, 0, 1) + (3888) * mn(p, 0, 1, 5, 2, 2, 2, 2))) + (((-5346) * mn(p, 0, 1, 5, 2, 0, 4, 3) + (-8991) * mn(p, 0, 1, 5, 2, 0, 4, 1)) + ((324) * mn(p, 0, 1, 5, 1, 4, 1, 2) + (-1944) * mn(p, 0, 1, 5, 1, 2, 3, 3)))))) + (((((-1620) * mn(p, 0, 1, 5, 1, 2, 3, 1) + ((972) * mn(p, 0, 1, 5, 1, 0, 5, 4) + (5346) * mn(p, 0, 1, 5, 1, 0, 5, 2))) + ((-108) * mn(p, 0, 1, 5, 0, 4, 2, 3) + ((-243) * mn(p, 0, 1, 5, 0, 4, 2, 1) + (324) * mn(p, 0, 1, 5, 0, 2, 4, 4)))) + (((405) * mn(p, 0, 1, 5, 0, 2, 4, 2) + ((-1215) * mn(p, 0, 1, 5, 0, 0, 6, 3) + (729) * mn(p, 0, 1, 5, 0, 0, 6, 1))) + (((-1701) * mn(p, 0, 0, 6, 5, 1, 0, 2) + (972) * mn(p, 0, 0, 6, 4, 1, 1, 3)) + ((3402) * mn(p, 0, 0, 6, 4, 1, 1, 1) + (27) * mn(p, 0, 0, 6, 3, 3, 0, 3))))) + ((((-54) * mn(p, 0, 0, 6, 3, 3, 0, 1) + ((-243) * mn(p, 0, 0, 6, 3, 1, 2, 4) + (3402) * mn(p, 0, 0, 6, 3, 1, 2, 2))) + (((1539) * mn(p, 0, 0, 6, 2, 3, 1, 2) + (-3402) * mn(p, 0, 0, 6, 2, 1, 3, 3)) + ((-10692) * mn(p, 0, 0, 6, 2, 1, 3, 1) + (-972) * mn(p, 0, 0, 6, 1, 3, 2, 3)))) + (((-2430) * mn(p, 0, 0, 6, 1, 3, 2, 1) + ((972) * mn(p, 0, 0, 6, 1, 1, 4, 4) + (7047) * mn(p, 0, 0, 6, 1, 1, 4, 2))) + (((216) * mn(p, 0, 0, 6, 0, 3, 3, 4) + (729) * mn(p, 0, 0, 6, 0, 3, 3, 2)) + ((-1944) * mn(p, 0, 0, 6, 0, 1, 5, 3) + (1458) * mn(p, 0, 0, 6, 0, 1, 5, 1)))))))))));
}

#[verifier::rlimit(100)]
proof fn acc_prod36_c0(p: Pt)
    ensures
        (((((((-243) * mn(p, 3, 0, 0, 5, 1, 0, 0) + (486) * mn(p, 3, 0, 0, 4, 1, 1, 1)) + ((27) * mn(p, 3, 0, 0, 3, 3, 0, 1) + (-243) * mn(p, 3, 0, 0, 3, 1, 2, 2))) + (((-486) * mn(p, 3, 0, 0, 3, 1, 2, 0) + (-81) * mn(p, 3, 0, 0, 2, 3, 1, 0)) + ((486) * mn(p, 3, 0, 0, 2, 1, 3, 1) + (-243) * mn(p, 3, 0, 0, 1, 1, 4, 0)))) + ((((27) * mn(p, 3, 0, 0, 0, 3, 3, 0) + (-243) * mn(p, 2, 1, 0, 6, 0, 0, 0)) + ((486) * mn(p, 2, 1, 0, 5, 0, 1, 1) + (81) * mn(p, 2, 1, 0, 4, 2, 0, 1))) + (((-243) * mn(p, 2, 1, 0, 4, 0, 2, 2) + (-243) * mn(p, 2, 1, 0, 4, 0, 2, 0)) + ((-324) * mn(p, 2, 1, 0, 3, 2, 1, 0) + (-27) * mn(p, 2, 1, 0, 2, 4, 0, 0))))) + (((((243) * mn(p, 2, 1, 0, 2, 0, 4, 2) + (243) * mn(p, 2, 1, 0, 2, 0, 4, 0)) + ((324) * mn(p, 2, 1, 0, 1, 2, 3, 0) + (-486) * mn(p, 2, 1, 0, 1, 0, 5, 1))) + (((27) * mn(p, 2, 1, 0, 0, 4, 2, 0) + (-81) * mn(p, 2, 1, 0, 0, 2, 4, 1)) + ((243) * mn(p, 2, 1, 0, 0, 0, 6, 0) + (486) * mn(p, 2, 0, 1, 5, 1, 0, 1)))) + ((((-486) * mn(p, 2, 0, 1, 4, 1, 1, 2) + (-1458) * mn(p, 2, 0, 1, 4, 1, 1, 0)) + ((-162) * mn(p, 2, 0, 1, 3, 3, 0, 0) + (1944) * mn(p, 2, 0, 1, 3, 1, 2, 1))) + (((-972) * mn(p, 2, 0, 1, 2, 1, 3, 0) + (486) * mn(p, 2, 0, 1, 1, 3, 2, 0)) + ((-486) * mn(p, 2, 0, 1, 1, 1, 4, 1) + (-162) * mn(p, 2, 0, 1, 0, 3, 3, 1))))))) * ((((-1) * mn(p, 3, 0, 0, 0, 0, 0, 0) + (3) * mn(p, 1, 0, 2, 0, 0, 0, 0)) + ((1) * mn(p, 0, 2, 1, 0, 0, 0, 0) + (-1) * mn(p, 0, 0, 3, 0, 0, 0, 1)))) == (((((((243) * mn(p, 6, 0, 0, 5, 1, 0, 0) + ((-486) * mn(p, 6, 0, 0, 4, 1, 1, 1) + (-27) * mn(p, 6, 0, 0, 3, 3, 0, 1))) + (((243) * mn(p, 6, 0, 0, 3, 1, 2, 2) + (486) * mn(p, 6, 0, 0, 3, 1, 2, 0)) + ((81) * mn(p, 6, 0, 0, 2, 3, 1, 0) + (-486) * mn(p, 6, 0, 0, 2, 1, 3, 1)))) + ((((243) * mn(p, 6, 0, 0, 1, 1, 4, 0) + (-27) * mn(p, 6, 0, 0, 0, 3, 3, 0)) + ((243) * mn(p, 5, 1, 0, 6, 0, 0, 0) + (-486) * mn(p, 5, 1, 0, 5, 0, 1, 1))) + (((-81) * mn(p, 5, 1, 0, 4, 2, 0, 1) + (243) * mn(p, 5, 1, 0, 4, 0, 2, 2)) + ((243) * mn(p, 5, 1, 0, 4, 0, 2, 0) + (324) * mn(p, 5, 1, 0, 3, 2, 1, 0))))) + ((((27) * mn(p, 5, 1, 0, 2, 4, 0, 0) + ((-243) * mn(p, 5, 1, 0, 2, 0, 4, 2) + (-243) * mn(p, 5, 1, 0, 2, 0, 4, 0))) + (((-324) * mn(p, 5, 1, 0, 1, 2, 3, 0) + (486) * mn(p, 5, 1, 0, 1, 0, 5, 1)) + ((-27) * mn(p, 5, 1, 0, 0, 4, 2, 0) + (81) * mn(p, 5, 1, 0, 0, 2, 4, 1)))) + ((((-243) * mn(p, 5, 1, 0, 0, 0, 6, 0) + (-486) * mn(p, 5, 0, 1, 5, 1, 0, 1)) + ((486) * mn(p, 5, 0, 1, 4, 1, 1, 2) + (1458) * mn(p, 5, 0, 1, 4, 1, 1, 0))) + (((162) * mn(p, 5, 0, 1, 3, 3, 0, 0) + (-1944) * mn(p, 5, 0, 1, 3, 1, 2, 1)) + ((972) * mn(p, 5, 0, 1, 2, 1, 3, 0) + (-486) * mn(p, 5, 0, 1, 1, 3, 2, 0)))))) + (((((486) * mn(p, 5, 0, 1, 1, 1, 4, 1) + ((162) * mn(p, 5, 0, 1, 0, 3, 3, 1) + (-729) * mn(p, 4, 0, 2, 5, 1, 0, 0))) + (((1458) * mn(p, 4, 0, 2, 4, 1, 1, 1) + (81) * mn(p, 4, 0, 2, 3, 3, 0, 1)) + ((-729) * mn(p, 4, 0, 2, 3, 1, 2, 2) + (-1458) * mn(p, 4, 0, 2, 3, 1, 2, 0)))) + ((((-243) * mn(p, 4, 0, 2, 2, 3, 1, 0) + (1458) * mn(p, 4, 0, 2, 2, 1, 3, 1)) + ((-729) * mn(p, 4, 0, 2, 1, 1, 4, 0) + (81) * mn(p, 4, 0, 2, 0, 3, 3, 0))) + (((-243) * mn(p, 3, 2, 1, 5, 1, 0, 0) + (486) * mn(p, 3, 2, 1, 4, 1, 1, 1)) + ((27) * mn(p, 3, 2, 1, 3, 3, 0, 1) + (-243) * mn(p, 3, 2, 1, 3, 1, 2, 2))))) + (((((-486) * mn(p, 3, 2, 1, 3, 1, 2, 0) + (-81) * mn(p, 3, 2, 1, 2, 3, 1, 0)) + ((486) * mn(p, 3, 2, 1, 2, 1, 3, 1) + (-243) * mn(p, 3, 2, 1, 1, 1, 4, 0))) + (((27) * mn(p, 3, 2, 1, 0, 3, 3, 0) + (-729) * mn(p, 3, 1, 2, 6, 0, 0, 0)) + ((1458) * mn(p, 3, 1, 2, 5, 0, 1, 1) + (243) * mn(p, 3, 1, 2, 4, 2, 0, 1)))) + ((((-729) * mn(p, 3, 1, 2, 4, 0, 2, 2) + (-729) * mn(p, 3, 1, 2, 4, 0, 2, 0)) + ((-972) * mn(p, 3, 1, 2, 3, 2, 1, 0) + (-81) * mn(p, 3, 1, 2, 2, 4, 0, 0))) + (((729) * mn(p, 3, 1, 2, 2, 0, 4, 2) + (729) * mn(p, 3, 1, 2, 2, 0, 4, 0)) + ((972) * mn(p, 3, 1, 2, 1, 2, 3, 0) + (-1458) * mn(p, 3, 1, 2, 1, 0, 5, 1))))))) + ((((((81) * mn(p, 3, 1, 2, 0, 4, 2, 0) + ((-243) * mn(p, 3, 1, 2, 0, 2, 4, 1) + (729) * mn(p, 3, 1, 2, 0, 0, 6, 0))) + (((1701) * mn(p, 3, 0, 3, 5, 1, 0, 1) + (-1944) * mn(p, 3, 0, 3, 4, 1, 1, 2)) + ((-4374) * mn(p, 3, 0, 3, 4, 1, 1, 0) + (-27) * mn(p, 3, 0, 3, 3, 3, 0, 2)))) + ((((-486) * mn(p, 3, 0, 3, 3, 3, 0, 0) + (243) * mn(p, 3, 0, 3, 3, 1, 2, 3)) + ((6318) * mn(p, 3, 0, 3, 3, 1, 2, 1) + (81) * mn(p, 3, 0, 3, 2, 3, 1, 1))) + (((-486) * mn(p, 3, 0, 3, 2, 1, 3, 2) + (-2916) * mn(p, 3, 0, 3, 2, 1, 3, 0)) + ((1458) * mn(p, 3, 0, 3, 1, 3, 2, 0) + (-1215) * mn(p, 3, 0, 3, 1, 1, 4, 1))))) + (((((-513) * mn(p, 3, 0, 3, 0, 3, 3, 1) + (-243) * mn(p, 2, 3, 1, 6, 0, 0, 0)) + ((486) * mn(p, 2, 3, 1, 5, 0, 1, 1) + (81) * mn(p, 2, 3, 1, 4, 2, 0, 1))) + (((-243) * mn(p, 2, 3, 1, 4, 0, 2, 2) + (-243) * mn(p, 2, 3, 1, 4, 0, 2, 0)) + ((-324) * mn(p, 2, 3, 1, 3, 2, 1, 0) + (-27) * mn(p, 2, 3, 1, 2, 4, 0, 0)))) + ((((243) * mn(p, 2, 3, 1, 2, 0, 4, 2) + (243) * mn(p, 2, 3, 1, 2, 0, 4, 0)) + ((324) * mn(p, 2, 3, 1, 1, 2, 3, 0) + (-486) * mn(p, 2, 3, 1, 1, 0, 5, 1))) + (((27) * mn(p, 2, 3, 1, 0, 4, 2, 0) + (-81) * mn(p, 2, 3, 1, 0, 2, 4, 1)) + ((243) * mn(p, 2, 3, 1, 0, 0, 6, 0) + (486) * mn(p, 2, 2, 2, 5, 1, 0, 1)))))) + (((((-486) * mn(p, 2, 2, 2, 4, 1, 1, 2) + ((-1458) * mn(p, 2, 2, 2, 4, 1, 1, 0) + (-162) * mn(p, 2, 2, 2, 3, 3, 0, 0))) + (((1944) * mn(p, 2, 2, 2, 3, 1, 2, 1) + (-972) * mn(p, 2, 2, 2, 2, 1, 3, 0)) + ((486) * mn(p, 2, 2, 2, 1, 3, 2, 0) + (-486) * mn(p, 2, 2, 2, 1, 1, 4, 1)))) + ((((-162) * mn(p, 2, 2, 2, 0, 3, 3, 1) + (243) * mn(p, 2, 1, 3, 6, 0, 0, 1)) + ((-486) * mn(p, 2, 1, 3, 5, 0, 1, 2) + (-81) * mn(p, 2, 1, 3, 4, 2, 0, 2))) + (((243) * mn(p, 2, 1, 3, 4, 0, 2, 3) + (243) * mn(p, 2, 1, 3, 4, 0, 2, 1)) + ((324) * mn(p, 2, 1, 3, 3, 2, 1, 1) + (27) * mn(p, 2, 1, 3, 2, 4, 0, 1))))) + (((((-243) * mn(p, 2, 1, 3, 2, 0, 4, 3) + (-243) * mn(p, 2, 1, 3, 2, 0, 4, 1)) + ((-324) * mn(p, 2, 1, 3, 1, 2, 3, 1) + (486) * mn(p, 2, 1, 3, 1, 0, 5, 2))) + (((-27) * mn(p, 2, 1, 3, 0, 4, 2, 1) + (81) * mn(p, 2, 1, 3, 0, 2, 4, 2)) + ((-243) * mn(p, 2, 1, 3, 0, 0, 6, 1) + (-486) * mn(p, 2, 0, 4, 5, 1, 0, 2)))) + ((((486) * mn(p, 2, 0, 4, 4, 1, 1, 3) + (1458) * mn(p, 2, 0, 4, 4, 1, 1, 1)) + ((162) * mn(p, 2, 0, 4, 3, 3, 0, 1) + (-1944) * mn(p, 2, 0, 4, 3, 1, 2, 2))) + (((972) * mn(p, 2, 0, 4, 2, 1, 3, 1) + (-486) * mn(p, 2, 0, 4, 1, 3, 2, 1)) + ((486) * mn(p, 2, 0, 4, 1, 1, 4, 2) + (162) * mn(p, 2, 0, 4, 0, 3, 3, 2)))))))),
{
    let t0 = (-243) * mn(p, 3, 0, 0, 5, 1, 0, 0);
    let t1 = (486) * mn(p, 3, 0, 0, 4, 1, 1, 1);
    let t2 = (27) * mn(p, 3, 0, 0, 3, 3, 0, 1);
    let t3 = (-243) * mn(p, 3, 0, 0, 3, 1, 2, 2);
    let t4 = (-486) * mn(p, 3, 0, 0, 3, 1, 2, 0);
    let t5 = (-81) * mn(p, 3, 0, 0, 2, 3, 1, 0);
    let t6 = (486) * mn(p, 3, 0, 0, 2, 1, 3, 1);
    let t7 = (-243) * mn(p, 3, 0, 0, 1, 1, 4, 0);
    let t8 = (27) * mn(p, 3, 0, 0, 0, 3, 3, 0);
    let t9 = (-243) * mn(p, 2, 1, 0, 6, 0, 0, 0);
    let t10 = (486) * mn(p, 2, 1, 0, 5, 0, 1, 1);
    let t11 = (81) * mn(p, 2, 1, 0, 4, 2, 0, 1);
    let t12 = (-243) * mn(p, 2, 1, 0, 4, 0, 2, 2);
    let t13 = (-243) * mn(p, 2, 1, 0, 4, 0, 2, 0);
    let t14 = (-324) * mn(p, 2, 1, 0, 3, 2, 1, 0);
    let t15 = (-27) * mn(p, 2, 1, 0, 2, 4, 0, 0);
    let t16 = (243) * mn(p, 2, 1, 0, 2, 0, 4, 2);
    let t17 = (243) * mn(p, 2, 1, 0, 2, 0, 4, 0);
    let t18 = (324) * mn(p, 2, 1, 0, 1, 2, 3, 0);
    let t19 = (-486) * mn(p, 2, 1, 0, 1, 0, 5, 1);
    let t20 = (27) * mn(p, 2, 1, 0, 0, 4, 2, 0);
    let t21 = (-81) * mn(p, 2, 1, 0, 0, 2, 4, 1);
    let t22 = (243) * mn(p, 2, 1, 0, 0, 0, 6, 0);
    let t23 = (486) * mn(p, 2, 0, 1, 5, 1, 0, 1);
    let t24 = (-486) * mn(p, 2, 0, 1, 4, 1, 1, 2);
    let t25 = (-1458) * mn(p, 2, 0, 1, 4, 1, 1, 0);
    let t26 = (-162) * mn(p, 2, 0, 1, 3, 3, 0, 0);
    let t27 = (1944) * mn(p, 2, 0, 1, 3, 1, 2, 1);
    let t28 = (-972) * mn(p, 2, 0, 1, 2, 1, 3, 0);
    let t29 = (486) * mn(p, 2, 0, 1, 1, 3, 2, 0);
    let t30 = (-486) * mn(p, 2, 0, 1, 1, 1, 4, 1);
    let t31 = (-162) * mn(p, 2, 0, 1, 0, 3, 3, 1);
    let s0 = (-1) * mn(p, 3, 0, 0, 0, 0, 0, 0);
    let s1 = (3) * mn(p, 1, 0, 2, 0, 0, 0, 0);
    let s2 = (1) * mn(p, 0, 2, 1, 0, 0, 0, 0);
    let s3 = (-1) * mn(p, 0, 0, 3, 0, 0, 0, 1);
    let pp0 = t0;
    let pp1 = pp0 + t1;
    let pp2 = pp1 + t2;
    let pp3 = pp2 + t3;
    let pp4 = pp3 + t4;
    let pp5 = pp4 + t5;
    let pp6 = pp5 + t6;
    let pp7 = pp6 + t7;
    let pp8 = pp7 + t8;
    let pp9 = pp8 + t9;
    let pp10 = pp9 + t10;
    let pp11 = pp10 + t11;
    let pp12 = pp11 + t12;
    let pp13 = pp12 + t13;
    let pp14 = pp13 + t14;
    let pp15 = pp14 + t15;
    let pp16 = pp15 + t16;
    let pp17 = pp16 + t17;
    let pp18 = pp17 + t18;
    let pp19 = pp18 + t19;
    let pp20 = pp19 + t20;
    let pp21 = pp20 + t21;
    let pp22 = pp21 + t22;
    let pp23 = pp22 + t23;
    let pp24 = pp23 + t24;
    let pp25 = pp24 + t25;
    let pp26 = pp25 + t26;
    let pp27 = pp26 + t27;
    let pp28 = pp27 + t28;
    let pp29 = pp28 + t29;
    let pp30 = pp29 + t30;
    let pp31 = pp30 + t31;
    let qq0 = s0;
    let qq1 = qq0 + s1;
    let qq2 = qq1 + s2;
    let qq3 = qq2 + s3;
    let q = qq3;
    lemma_mul_is_distributive_add_other_way(q, pp0, t1);
    lemma_mul_is_distributive_add_other_way(q, pp1, t2);
    lemma_mul_is_distributive_add_other_way(q, pp2, t3);
    lemma_mul_is_distributive_add_other_way(q, pp3, t4);
    lemma_mul_is_distributive_add_other_way(q, pp4, t5);
    lemma_mul_is_distributive_add_other_way(q, pp5, t6);
    lemma_mul_is_distributive_add_other_way(q, pp6, t7);
    lemma_mul_is_distributive_add_other_way(q, pp7, t8);
    lemma_mul_is_distributive_add_other_way(q, pp8, t9);
    lemma_mul_is_distributive_add_other_way(q, pp9, t10);
    lemma_mul_is_distributive_add_other_way(q, pp10, t11);
    lemma_mul_is_distributive_add_other_way(q, pp11, t12);
    lemma_mul_is_distributive_add_other_way(q, pp12, t13);
    lemma_mul_is_distributive_add_other_way(q, pp13, t14);
    lemma_mul_is_distributive_add_other_way(q, pp14, t15);
    lemma_mul_is_distributive_add_other_way(q, pp15, t16);
    lemma_mul_is_distributive_add_other_way(q, pp16, t17);
    lemma_mul_is_distributive_add_other_way(q, pp17, t18);
    lemma_mul_is_distributive_add_other_way(q, pp18, t19);
    lemma_mul_is_distributive_add_other_way(q, pp19, t20);
    lemma_mul_is_distributive_add_other_way(q, pp20, t21);
    lemma_mul_is_distributive_add_other_way(q, pp21, t22);
    lemma_mul_is_distributive_add_other_way(q, pp22, t23);
    lemma_mul_is_distributive_add_other_way(q, pp23, t24);
    lemma_mul_is_distributive_add_other_way(q, pp24, t25);
    lemma_mul_is_distributive_add_other_way(q, pp25, t26);
    lemma_mul_is_distributive_add_other_way(q, pp26, t27);
    lemma_mul_is_distributive_add_other_way(q, pp27, t28);
    lemma_mul_is_distributive_add_other_way(q, pp28, t29);
    lemma_mul_is_distributive_add_other_way(q, pp29, t30);
    lemma_mul_is_distributive_add_other_way(q, pp30, t31);
    lemma_mul_is_distributive_add(t0, qq0, s1);
    lemma_mul_is_distributive_add(t0, qq1, s2);
    lemma_mul_is_distributive_add(t0, qq2, s3);
    lemma_mul_is_distributive_add(t1, qq0, s1);
    lemma_mul_is_distributive_add(t1, qq1, s2);
    lemma_mul_is_distributive_add(t1, qq2, s3);
    lemma_mul_is_distributive_add(t2, qq0, s1);
    lemma_mul_is_distributive_add(t2, qq1, s2);
    lemma_mul_is_distributive_add(t2, qq2, s3);
    lemma_mul_is_distributive_add(t3, qq0, s1);
    lemma_mul_is_distributive_add(t3, qq1, s2);
    lemma_mul_is_distributive_add(t3, qq2, s3);
    lemma_mul_is_distributive_add(t4, qq0, s1);
    lemma_mul_is_distributive_add(t4, qq1, s2);
    lemma_mul_is_distributive_add(t4, qq2, s3);
    lemma_mul_is_distributive_add(t5, qq0, s1);
    lemma_mul_is_distributive_add(t5, qq1, s2);
    lemma_mul_is_distributive_add(t5, qq2, s3);
    lemma_mul_is_distributive_add(t6, qq0, s1);
    lemma_mul_is_distributive_add(t6, qq1, s2);
    lemma_mul_is_distributive_add(t6, qq2, s3);
    lemma_mul_is_distributive_add(t7, qq0, s1);
    lemma_mul_is_distributive_add(t7, qq1, s2);
    lemma_mul_is_distributive_add(t7, qq2, s3);
    lemma_mul_is_distributive_add(t8, qq0, s1);
    lemma_mul_is_distributive_add(t8, qq1, s2);
    lemma_mul_is_distributive_add(t8, qq2, s3);
    lemma_mul_is_distributive_add(t9, qq0, s1);
    lemma_mul_is_distributive_add(t9, qq1, s2);
    lemma_mul_is_distributive_add(t9, qq2, s3);
    lemma_mul_is_distributive_add(t10, qq0, s1);
    lemma_mul_is_distributive_add(t10, qq1, s2);
    lemma_mul_is_distributive_add(t10, qq2, s3);
    lemma_mul_is_distributive_add(t11, qq0, s1);
    lemma_mul_is_distributive_add(t11, qq1, s2);
    lemma_mul_is_distributive_add(t11, qq2, s3);
    lemma_mul_is_distributive_add(t12, qq0, s1);
    lemma_mul_is_distributive_add(t12, qq1, s2);
    lemma_mul_is_distributive_add(t12, qq2, s3);
    lemma_mul_is_distributive_add(t13, qq0, s1);
    lemma_mul_is_distributive_add(t13, qq1, s2);
    lemma_mul_is_distributive_add(t13, qq2, s3);
    lemma_mul_is_distributive_add(t14, qq0, s1);
    lemma_mul_is_distributive_add(t14, qq1, s2);
    lemma_mul_is_distributive_add(t14, qq2, s3);
    lemma_mul_is_distributive_add(t15, qq0, s1);
    lemma_mul_is_distributive_add(t15, qq1, s2);
    lemma_mul_is_distributive_add(t15, qq2, s3);
    lemma_mul_is_distributive_add(t16, qq0, s1);
    lemma_mul_is_distributive_add(t16, qq1, s2);
    lemma_mul_is_distributive_add(t16, qq2, s3);
    lemma_mul_is_distributive_add(t17, qq0, s1);
    lemma_mul_is_distributive_add(t17, qq1, s2);
    lemma_mul_is_distributive_add(t17, qq2, s3);
    lemma_mul_is_distributive_add(t18, qq0, s1);
    lemma_mul_is_distributive_add(t18, qq1, s2);
    lemma_mul_is_distributive_add(t18, qq2, s3);
    lemma_mul_is_distributive_add(t19, qq0, s1);
    lemma_mul_is_distributive_add(t19, qq1, s2);
    lemma_mul_is_distributive_add(t19, qq2, s3);
    lemma_mul_is_distributive_add(t20, qq0, s1);
    lemma_mul_is_distributive_add(t20, qq1, s2);
    lemma_mul_is_distributive_add(t20, qq2, s3);
    lemma_mul_is_distributive_add(t21, qq0, s1);
    lemma_mul_is_distributive_add(t21, qq1, s2);
    lemma_mul_is_distributive_add(t21, qq2, s3);
    lemma_mul_is_distributive_add(t22, qq0, s1);
    lemma_mul_is_distributive_add(t22, qq1, s2);
    lemma_mul_is_distributive_add(t22, qq2, s3);
    lemma_mul_is_distributive_add(t23, qq0, s1);
    lemma_mul_is_distributive_add(t23, qq1, s2);
    lemma_mul_is_distributive_add(t23, qq2, s3);
    lemma_mul_is_distributive_add(t24, qq0, s1);
    lemma_mul_is_distributive_add(t24, qq1, s2);
    lemma_mul_is_distributive_add(t24, qq2, s3);
    lemma_mul_is_distributive_add(t25, qq0, s1);
    lemma_mul_is_distributive_add(t25, qq1, s2);
    lemma_mul_is_distributive_add(t25, qq2, s3);
    lemma_mul_is_distributive_add(t26, qq0, s1);
    lemma_mul_is_distributive_add(t26, qq1, s2);
    lemma_mul_is_distributive_add(t26, qq2, s3);
    lemma_mul_is_distributive_add(t27, qq0, s1);
    lemma_mul_is_distributive_add(t27, qq1, s2);
    lemma_mul_is_distributive_add(t27, qq2, s3);
    lemma_mul_is_distributive_add(t28, qq0, s1);
    lemma_mul_is_distributive_add(t28, qq1, s2);
    lemma_mul_is_distributive_add(t28, qq2, s3);
    lemma_mul_is_distributive_add(t29, qq0, s1);
    lemma_mul_is_distributive_add(t29, qq1, s2);
    lemma_mul_is_distributive_add(t29, qq2, s3);
    lemma_mul_is_distributive_add(t30, qq0, s1);
    lemma_mul_is_distributive_add(t30, qq1, s2);
    lemma_mul_is_distributive_add(t30, qq2, s3);
    lemma_mul_is_distributive_add(t31, qq0, s1);
    lemma_mul_is_distributive_add(t31, qq1, s2);
    lemma_mul_is_distributive_add(t31, qq2, s3);
    lemma_tm(p, -243, 3, 0, 0, 5, 1, 0, 0, -1, 3, 0, 0, 0, 0, 0, 0);
    assert(t0 * s0 == (243) * mn(p, 6, 0, 0, 5, 1, 0, 0));
    lemma_tm(p, -243, 3, 0, 0, 5, 1, 0, 0, 3, 1, 0, 2, 0, 0, 0, 0);
    assert(t0 * s1 == (-729) * mn(p, 4, 0, 2, 5, 1, 0, 0));
    lemma_tm(p, -243, 3, 0, 0, 5, 1, 0, 0, 1, 0, 2, 1, 0, 0, 0, 0);
    assert(t0 * s2 == (-243) * mn(p, 3, 2, 1, 5, 1, 0, 0));
    lemma_tm(p, -243, 3, 0, 0, 5, 1, 0, 0, -1, 0, 0, 3, 0, 0, 0, 1);
    assert(t0 * s3 == (243) * mn(p, 3, 0, 3, 5, 1, 0, 1));
    assert(t0 * q == (243) * mn(p, 6, 0, 0, 5, 1, 0, 0) + (-729) * mn(p, 4, 0, 2, 5, 1, 0, 0) + (-243) * mn(p, 3, 2, 1, 5, 1, 0, 0) + (243) * mn(p, 3, 0, 3, 5, 1, 0, 1));
    lemma_tm(p, 486, 3, 0, 0, 4, 1, 1, 1, -1, 3, 0, 0, 0, 0, 0, 0);
    assert(t1 * s0 == (-486) * mn(p, 6, 0, 0, 4, 1, 1, 1));
    lemma_tm(p, 486, 3, 0, 0, 4, 1, 1, 1, 3, 1, 0, 2, 0, 0, 0, 0);
    assert(t1 * s1 == (1458) * mn(p, 4, 0, 2, 4, 1, 1, 1));
    lemma_tm(p, 486, 3, 0, 0, 4, 1, 1, 1, 1, 0, 2, 1, 0, 0, 0, 0);
    assert(t1 * s2 == (486) * mn(p, 3, 2, 1, 4, 1, 1, 1));
    lemma_tm(p, 486, 3, 0, 0, 4, 1, 1, 1, -1, 0, 0, 3, 0, 0, 0, 1);
    assert(t1 * s3 == (-486) * mn(p, 3, 0, 3, 4, 1, 1, 2));
    assert(t1 * q == (-486) * mn(p, 6, 0, 0, 4, 1, 1, 1) + (1458) * mn(p, 4, 0, 2, 4, 1, 1, 1) + (486) * mn(p, 3, 2, 1, 4, 1, 1, 1) + (-486) * mn(p, 3, 0, 3, 4, 1, 1, 2));
    lemma_tm(p, 27, 3, 0, 0, 3, 3, 0, 1, -1, 3, 0, 0, 0, 0, 0, 0);
    assert(t2 * s0 == (-27) * mn(p, 6, 0, 0, 3, 3, 0, 1));
    lemma_tm(p, 27, 3, 0, 0, 3, 3, 0, 1, 3, 1, 0, 2, 0, 0, 0, 0);
    assert(t2 * s1 == (81) * mn(p, 4, 0, 2, 3, 3, 0, 1));
    lemma_tm(p, 27, 3, 0, 0, 3, 3, 0, 1, 1, 0, 2, 1, 0, 0, 0, 0);
    assert(t2 * s2 == (27) * mn(p, 3, 2, 1, 3, 3, 0, 1));
    lemma_tm(p, 27, 3, 0, 0, 3, 3, 0, 1, -1, 0, 0, 3, 0, 0, 0, 1);
    assert(t2 * s3 == (-27) * mn(p, 3, 0, 3, 3, 3, 0, 2));
    assert(t2 * q == (-27) * mn(p, 6, 0, 0, 3, 3, 0, 1) + (81) * mn(p, 4, 0, 2, 3, 3, 0, 1) + (27) * mn(p, 3, 2, 1, 3, 3, 0, 1) + (-27) * mn(p, 3, 0, 3, 3, 3, 0, 2));
    lemma_tm(p, -243, 3, 0, 0, 3, 1, 2, 2, -1, 3, 0, 0, 0, 0, 0, 0);
    assert(t3 * s0 == (243) * mn(p, 6, 0, 0, 3, 1, 2, 2));
    lemma_tm(p, -243, 3, 0, 0, 3, 1, 2, 2, 3, 1, 0, 2, 0, 0, 0, 0);
    assert(t3 * s1 == (-729) * mn(p, 4, 0, 2, 3, 1, 2, 2));
    lemma_tm(p, -243, 3, 0, 0, 3, 1, 2, 2, 1, 0, 2, 1, 0, 0, 0, 0);
    assert(t3 * s2 == (-243) * mn(p, 3, 2, 1, 3, 1, 2, 2));
    lemma_tm(p, -243, 3, 0, 0, 3, 1, 2, 2, -1, 0, 0, 3, 0, 0, 0, 1);
    assert(t3 * s3 == (243) * mn(p, 3, 0, 3, 3, 1, 2, 3));
    assert(t3 * q == (243) * mn(p, 6, 0, 0, 3, 1, 2, 2) + (-729) * mn(p, 4, 0, 2, 3, 1, 2, 2) + (-243) * mn(p, 3, 2, 1, 3, 1, 2, 2) + (243) * mn(p, 3, 0, 3, 3, 1, 2, 3));
    lemma_tm(p, -486, 3, 0, 0, 3, 1, 2, 0, -1, 3, 0, 0, 0, 0, 0, 0);
    assert(t4 * s0 == (486) * mn(p, 6, 0, 0, 3, 1, 2, 0));
    lemma_tm(p, -486, 3, 0, 0, 3, 1, 2, 0, 3, 1, 0, 2, 0, 0, 0, 0);
    assert(t4 * s1 == (-1458) * mn(p, 4, 0, 2, 3, 1, 2, 0));
    lemma_tm(p, -486, 3, 0, 0, 3, 1, 2, 0, 1, 0, 2, 1, 0, 0, 0, 0);
    assert(t4 * s2 == (-486) * mn(p, 3, 2, 1, 3, 1, 2, 0));
    lemma_tm(p, -486, 3, 0, 0, 3, 1, 2, 0, -1, 0, 0, 3, 0, 0, 0, 1);
    assert(t4 * s3 == (486) * mn(p, 3, 0, 3, 3, 1, 2, 1));
    assert(t4 * q == (486) * mn(p, 6, 0, 0, 3, 1, 2, 0) + (-1458) * mn(p, 4, 0, 2, 3, 1, 2, 0) + (-486) * mn(p, 3, 2, 1, 3, 1, 2, 0) + (486) * mn(p, 3, 0, 3, 3, 1, 2, 1));
    lemma_tm(p, -81, 3, 0, 0, 2, 3, 1, 0, -1, 3, 0, 0, 0, 0, 0, 0);
    assert(t5 * s0 == (81) * mn(p, 6, 0, 0, 2, 3, 1, 0));
    lemma_tm(p, -81, 3, 0, 0, 2, 3, 1, 0, 3, 1, 0, 2, 0, 0, 0, 0);
    assert(t5 * s1 == (-243) * mn(p, 4, 0, 2, 2, 3, 1, 0));
    lemma_tm(p, -81, 3, 0, 0, 2, 3, 1, 0, 1, 0, 2, 1, 0, 0, 0, 0);
    assert(t5 * s2 == (-81) * mn(p, 3, 2, 1, 2, 3, 1, 0));
    lemma_tm(p, -81, 3, 0, 0, 2, 3, 1, 0, -1, 0, 0, 3, 0, 0, 0, 1);
    assert(t5 * s3 == (81) * mn(p, 3, 0, 3, 2, 3, 1, 1));
    assert(t5 * q == (81) * mn(p, 6, 0, 0, 2, 3, 1, 0) + (-243) * mn(p, 4, 0, 2, 2, 3, 1, 0) + (-81) * mn(p, 3, 2, 1, 2, 3, 1, 0) + (81) * mn(p, 3, 0, 3, 2, 3, 1, 1));
    lemma_tm(p, 486, 3, 0, 0, 2, 1, 3, 1, -1, 3, 0, 0, 0, 0, 0, 0);
    assert(t6 * s0 == (-486) * mn(p, 6, 0, 0, 2, 1, 3, 1));
    lemma_tm(p, 486, 3, 0, 0, 2, 1, 3, 1, 3, 1, 0, 2, 0, 0, 0, 0);
    assert(t6 * s1 == (1458) * mn(p, 4, 0, 2, 2, 1, 3, 1));
    lemma_tm(p, 486, 3, 0, 0, 2, 1, 3, 1, 1, 0, 2, 1, 0, 0, 0, 0);
    assert(t6 * s2 == (486) * mn(p, 3, 2, 1, 2, 1, 3, 1));
    lemma_tm(p, 486, 3, 0, 0, 2, 1, 3, 1, -1, 0, 0, 3, 0, 0, 0, 1);
    assert(t6 * s3 == (-486) * mn(p, 3, 0, 3, 2, 1, 3, 2));
    assert(t6 * q == (-486) * mn(p, 6, 0, 0, 2, 1, 3, 1) + (1458) * mn(p, 4, 0, 2, 2, 1, 3, 1) + (486) * mn(p, 3, 2, 1, 2, 1, 3, 1) + (-486) * mn(p, 3, 0, 3, 2, 1, 3, 2));
    lemma_tm(p, -243, 3, 0, 0, 1, 1, 4, 0, -1, 3, 0, 0, 0, 0, 0, 0);
    assert(t7 * s0 == (243) * mn(p, 6, 0, 0, 1, 1, 4, 0));
    lemma_tm(p, -243, 3, 0, 0, 1, 1, 4, 0, 3, 1, 0, 2, 0, 0, 0, 0);
    assert(t7 * s1 == (-729) * mn(p, 4, 0, 2, 1, 1, 4, 0));
    lemma_tm(p, -243, 3, 0, 0, 1, 1, 4, 0, 1, 0, 2, 1, 0, 0, 0, 0);
    assert(t7 * s2 == (-243) * mn(p, 3, 2, 1, 1, 1, 4, 0));
    lemma_tm(p, -243, 3, 0, 0, 1, 1, 4, 0, -1, 0, 0, 3, 0, 0, 0, 1);
    assert(t7 * s3 == (243) * mn(p, 3, 0, 3, 1, 1, 4, 1));
    assert(t7 * q == (243) * mn(p, 6, 0, 0, 1, 1, 4, 0) + (-729) * mn(p, 4, 0, 2, 1, 1, 4, 0) + (-243) * mn(p, 3, 2, 1, 1, 1, 4, 0) + (243) * mn(p, 3, 0, 3, 1, 1, 4, 1));
    lemma_tm(p, 27, 3, 0, 0, 0, 3, 3, 0, -1, 3, 0, 0, 0, 0, 0, 0);
    assert(t8 * s0 == (-27) * mn(p, 6, 0, 0, 0, 3, 3, 0));
    lemma_tm(p, 27, 3, 0, 0, 0, 3, 3, 0, 3, 1, 0, 2, 0, 0, 0, 0);
    assert(t8 * s1 == (81) * mn(p, 4, 0, 2, 0, 3, 3, 0));
    lemma_tm(p, 27, 3, 0, 0, 0, 3, 3, 0, 1, 0, 2, 1, 0, 0, 0, 0);
    assert(t8 * s2 == (27) * mn(p, 3, 2, 1, 0, 3, 3, 0));
    lemma_tm(p, 27, 3, 0, 0, 0, 3, 3, 0, -1, 0, 0, 3, 0, 0, 0, 1);
    assert(t8 * s3 == (-27) * mn(p, 3, 0, 3, 0, 3, 3, 1));
    assert(t8 * q == (-27) * mn(p, 6, 0, 0, 0, 3, 3, 0) + (81) * mn(p, 4, 0, 2, 0, 3, 3, 0) + (27) * mn(p, 3, 2, 1, 0, 3, 3, 0) + (-27) * mn(p, 3, 0, 3, 0, 3, 3, 1));
    lemma_tm(p, -243, 2, 1, 0, 6, 0, 0, 0, -1, 3, 0, 0, 0, 0, 0, 0);
    assert(t9 * s0 == (243) * mn(p, 5, 1, 0, 6, 0, 0, 0));
    lemma_tm(p, -243, 2, 1, 0, 6, 0, 0, 0, 3, 1, 0, 2, 0, 0, 0, 0);
    assert(t9 * s1 == (-729) * mn(p, 3, 1, 2, 6, 0, 0, 0));
    lemma_tm(p, -243, 2, 1, 0, 6, 0, 0, 0, 1, 0, 2, 1, 0, 0, 0, 0);
    assert(t9 * s2 == (-243) * mn(p, 2, 3, 1, 6, 0, 0, 0));
    lemma_tm(p, -243, 2, 1, 0, 6, 0, 0, 0, -1, 0, 0, 3, 0, 0, 0, 1);
    assert(t9 * s3 == (243) * mn(p, 2, 1, 3, 6, 0, 0, 1));
    assert(t9 * q == (243) * mn(p, 5, 1, 0, 6, 0, 0, 0) + (-729) * mn(p, 3, 1, 2, 6, 0, 0, 0) + (-243) * mn(p, 2, 3, 1, 6, 0, 0, 0) + (243) * mn(p, 2, 1, 3, 6, 0, 0, 1));
    lemma_tm(p, 486, 2, 1, 0, 5, 0, 1, 1, -1, 3, 0, 0, 0, 0, 0, 0);
    assert(t10 * s0 == (-486) * mn(p, 5, 1, 0, 5, 0, 1, 1));
    lemma_tm(p, 486, 2, 1, 0, 5, 0, 1, 1, 3, 1, 0, 2, 0, 0, 0, 0);
    assert(t10 * s1 == (1458) * mn(p, 3, 1, 2, 5, 0, 1, 1));
    lemma_tm(p, 486, 2, 1, 0, 5, 0, 1, 1, 1, 0, 2, 1, 0, 0, 0, 0);
    assert(t10 * s2 == (486) * mn(p, 2, 3, 1, 5, 0, 1, 1));
    lemma_tm(p, 486, 2, 1, 0, 5, 0, 1, 1, -1, 0, 0, 3, 0, 0, 0, 1);
    assert(t10 * s3 == (-486) * mn(p, 2, 1, 3, 5, 0, 1, 2));
    assert(t10 * q == (-486) * mn(p, 5, 1, 0, 5, 0, 1, 1) + (1458) * mn(p, 3, 1, 2, 5, 0, 1, 1) + (486) * mn(p, 2, 3, 1, 5, 0, 1, 1) + (-486) * mn(p, 2, 1, 3, 5, 0, 1, 2));
    lemma_tm(p, 81, 2, 1, 0, 4, 2, 0, 1, -1, 3, 0, 0, 0, 0, 0, 0);
    assert(t11 * s0 == (-81) * mn(p, 5, 1, 0, 4, 2, 0, 1));
    lemma_tm(p, 81, 2, 1, 0, 4, 2, 0, 1, 3, 1, 0, 2, 0, 0, 0, 0);
    assert(t11 * s1 == (243) * mn(p, 3, 1, 2, 4, 2, 0, 1));
    lemma_tm(p, 81, 2, 1, 0, 4, 2, 0, 1, 1, 0, 2, 1, 0, 0, 0, 0);
    assert(t11 * s2 == (81) * mn(p, 2, 3, 1, 4, 2, 0, 1));
    lemma_tm(p, 81, 2, 1, 0, 4, 2, 0, 1, -1, 0, 0, 3, 0, 0, 0, 1);
    assert(t11 * s3 == (-81) * mn(p, 2, 1, 3, 4, 2, 0, 2));
    assert(t11 * q == (-81) * mn(p, 5, 1, 0, 4, 2, 0, 1) + (243) * mn(p, 3, 1, 2, 4, 2, 0, 1) + (81) * mn(p, 2, 3, 1, 4, 2, 0, 1) + (-81) * mn(p, 2, 1, 3, 4, 2, 0, 2));
    lemma_tm(p, -243, 2, 1, 0, 4, 0, 2, 2, -1, 3, 0, 0, 0, 0, 0, 0);
    assert(t12 * s0 == (243) * mn(p, 5, 1, 0, 4, 0, 2, 2));
    lemma_tm(p, -243, 2, 1, 0, 4, 0, 2, 2, 3, 1, 0, 2, 0, 0, 0, 0);
    assert(t12 * s1 == (-729) * mn(p, 3, 1, 2, 4, 0, 2, 2));
    lemma_tm(p, -243, 2, 1, 0, 4, 0, 2, 2, 1, 0, 2, 1, 0, 0, 0, 0);
    assert(t12 * s2 == (-243) * mn(p, 2, 3, 1, 4, 0, 2, 2));
    lemma_tm(p, -243, 2, 1, 0, 4, 0, 2, 2, -1, 0, 0, 3, 0, 0, 0, 1);
    assert(t12 * s3 == (243) * mn(p, 2, 1, 3, 4, 0, 2, 3));
    assert(t12 * q == (243) * mn(p, 5, 1, 0, 4, 0, 2, 2) + (-729) * mn(p, 3, 1, 2, 4, 0, 2, 2) + (-243) * mn(p, 2, 3, 1, 4, 0, 2, 2) + (243) * mn(p, 2, 1, 3, 4, 0, 2, 3));
    lemma_tm(p, -243, 2, 1, 0, 4, 0, 2, 0, -1, 3, 0, 0, 0, 0, 0, 0);
    assert(t13 * s0 == (243) * mn(p, 5, 1, 0, 4, 0, 2, 0));
    lemma_tm(p, -243, 2, 1, 0, 4, 0, 2, 0, 3, 1, 0, 2, 0, 0, 0, 0);
    assert(t13 * s1 == (-729) * mn(p, 3, 1, 2, 4, 0, 2, 0));
    lemma_tm(p, -243, 2, 1, 0, 4, 0, 2, 0, 1, 0, 2, 1, 0, 0, 0, 0);
    assert(t13 * s2 == (-243) * mn(p, 2, 3, 1, 4, 0, 2, 0));
    lemma_tm(p, -243, 2, 1, 0, 4, 0, 2, 0, -1, 0, 0, 3, 0, 0, 0, 1);
    assert(t13 * s3 == (243) * mn(p, 2, 1, 3, 4, 0, 2, 1));
    assert(t13 * q == (243) * mn(p, 5, 1, 0, 4, 0, 2, 0) + (-729) * mn(p, 3, 1, 2, 4, 0, 2, 0) + (-243) * mn(p, 2, 3, 1, 4, 0, 2, 0) + (243) * mn(p, 2, 1, 3, 4, 0, 2, 1));
    lemma_tm(p, -324, 2, 1, 0, 3, 2, 1, 0, -1, 3, 0, 0, 0, 0, 0, 0);
    assert(t14 * s0 == (324) * mn(p, 5, 1, 0, 3, 2, 1, 0));
    lemma_tm(p, -324, 2, 1, 0, 3, 2, 1, 0, 3, 1, 0, 2, 0, 0, 0, 0);
    assert(t14 * s1 == (-972) * mn(p, 3, 1, 2, 3, 2, 1, 0));
    lemma_tm(p, -324, 2, 1, 0, 3, 2, 1, 0, 1, 0, 2, 1, 0, 0, 0, 0);
    assert(t14 * s2 == (-324) * mn(p, 2, 3, 1, 3, 2, 1, 0));
    lemma_tm(p, -324, 2, 1, 0, 3, 2, 1, 0, -1, 0, 0, 3, 0, 0, 0, 1);
    assert(t14 * s3 == (324) * mn(p, 2, 1, 3, 3, 2, 1, 1));
    assert(t14 * q == (324) * mn(p, 5, 1, 0, 3, 2, 1, 0) + (-972) * mn(p, 3, 1, 2, 3, 2, 1, 0) + (-324) * mn(p, 2, 3, 1, 3, 2, 1, 0) + (324) * mn(p, 2, 1, 3, 3, 2, 1, 1));
    lemma_tm(p, -27, 2, 1, 0, 2, 4, 0, 0, -1, 3, 0, 0, 0, 0, 0, 0);
    assert(t15 * s0 == (27) * mn(p, 5, 1, 0, 2, 4, 0, 0));
    lemma_tm(p, -27, 2, 1, 0, 2, 4, 0, 0, 3, 1, 0, 2, 0, 0, 0, 0);
    assert(t15 * s1 == (-81) * mn(p, 3, 1, 2, 2, 4, 0, 0));
    lemma_tm(p, -27, 2, 1, 0, 2, 4, 0, 0, 1, 0, 2, 1, 0, 0, 0, 0);
    assert(t15 * s2 == (-27) * mn(p, 2, 3, 1, 2, 4, 0, 0));
    lemma_tm(p, -27, 2, 1, 0, 2, 4, 0, 0, -1, 0, 0, 3, 0, 0, 0, 1);
    assert(t15 * s3 == (27) * mn(p, 2, 1, 3, 2, 4, 0, 1));
    assert(t15 * q == (27) * mn(p, 5, 1, 0, 2, 4, 0, 0) + (-81) * mn(p, 3, 1, 2, 2, 4, 0, 0) + (-27) * mn(p, 2, 3, 1, 2, 4, 0, 0) + (27) * mn(p, 2, 1, 3, 2, 4, 0, 1));
    lemma_tm(p, 243, 2, 1, 0, 2, 0, 4, 2, -1, 3, 0, 0, 0, 0, 0, 0);
    assert(t16 * s0 == (-243) * mn(p, 5, 1, 0, 2, 0, 4, 2));
    lemma_tm(p, 243, 2, 1, 0, 2, 0, 4, 2, 3, 1, 0, 2, 0, 0, 0, 0);
    assert(t16 * s1 == (729) * mn(p, 3, 1, 2, 2, 0, 4, 2));
    lemma_tm(p, 243, 2, 1, 0, 2, 0, 4, 2, 1, 0, 2, 1, 0, 0, 0, 0);
    assert(t16 * s2 == (243) * mn(p, 2, 3, 1, 2, 0, 4, 2));
    lemma_tm(p, 243, 2, 1, 0, 2, 0, 4, 2, -1, 0, 0, 3, 0, 0, 0, 1);
    assert(t16 * s3 == (-243) * mn(p, 2, 1, 3, 2, 0, 4, 3));
    assert(t16 * q == (-243) * mn(p, 5, 1, 0, 2, 0, 4, 2) + (729) * mn(p, 3, 1, 2, 2, 0, 4, 2) + (243) * mn(p, 2, 3, 1, 2, 0, 4, 2) + (-243) * mn(p, 2, 1, 3, 2, 0, 4, 3));
    lemma_tm(p, 243, 2, 1, 0, 2, 0, 4, 0, -1, 3, 0, 0, 0, 0, 0, 0);
    assert(t17 * s0 == (-243) * mn(p, 5, 1, 0, 2, 0, 4, 0));
    lemma_tm(p, 243, 2, 1, 0, 2, 0, 4, 0, 3, 1, 0, 2, 0, 0, 0, 0);
    assert(t17 * s1 == (729) * mn(p, 3, 1, 2, 2, 0, 4, 0));
    lemma_tm(p, 243, 2, 1, 0, 2, 0, 4, 0, 1, 0, 2, 1, 0, 0, 0, 0);
    assert(t17 * s2 == (243) * mn(p, 2, 3, 1, 2, 0, 4, 0));
    lemma_tm(p, 243, 2, 1, 0, 2, 0, 4, 0, -1, 0, 0, 3, 0, 0, 0, 1);
    assert(t17 * s3 == (-243) * mn(p, 2, 1, 3, 2, 0, 4, 1));
    assert(t17 * q == (-243) * mn(p, 5, 1, 0, 2, 0, 4, 0) + (729) * mn(p, 3, 1, 2, 2, 0, 4, 0) + (243) * mn(p, 2, 3, 1, 2, 0, 4, 0) + (-243) * mn(p, 2, 1, 3, 2, 0, 4, 1));
    lemma_tm(p, 324, 2, 1, 0, 1, 2, 3, 0, -1, 3, 0, 0, 0, 0, 0, 0);
    assert(t18 * s0 == (-324) * mn(p, 5, 1, 0, 1, 2, 3, 0));
    lemma_tm(p, 324, 2, 1, 0, 1, 2, 3, 0, 3, 1, 0, 2, 0, 0, 0, 0);
    assert(t18 * s1 == (972) * mn(p, 3, 1, 2, 1, 2, 3, 0));
    lemma_tm(p, 324, 2, 1, 0, 1, 2, 3, 0, 1, 0, 2, 1, 0, 0, 0, 0);
    assert(t18 * s2 == (324) * mn(p, 2, 3, 1, 1, 2, 3, 0));
    lemma_tm(p, 324, 2, 1, 0, 1, 2, 3, 0, -1, 0, 0, 3, 0, 0, 0, 1);
    assert(t18 * s3 == (-324) * mn(p, 2, 1, 3, 1, 2, 3, 1));
    assert(t18 * q == (-324) * mn(p, 5, 1, 0, 1, 2, 3, 0) + (972) * mn(p, 3, 1, 2, 1, 2, 3, 0) + (324) * mn(p, 2, 3, 1, 1, 2, 3, 0) + (-324) * mn(p, 2, 1, 3, 1, 2, 3, 1));
    lemma_tm(p, -486, 2, 1, 0, 1, 0, 5, 1, -1, 3, 0, 0, 0, 0, 0, 0);
    assert(t19 * s0 == (486) * mn(p, 5, 1, 0, 1, 0, 5, 1));
    lemma_tm(p, -486, 2, 1, 0, 1, 0, 5, 1, 3, 1, 0, 2, 0, 0, 0, 0);
    assert(t19 * s1 == (-1458) * mn(p, 3, 1, 2, 1, 0, 5, 1));
    lemma_tm(p, -486, 2, 1, 0, 1, 0, 5, 1, 1, 0, 2, 1, 0, 0, 0, 0);
    assert(t19 * s2 == (-486) * mn(p, 2, 3, 1, 1, 0, 5, 1));
    lemma_tm(p, -486, 2, 1, 0, 1, 0, 5, 1, -1, 0, 0, 3, 0, 0, 0, 1);
    assert(t19 * s3 == (486) * mn(p, 2, 1, 3, 1, 0, 5, 2));
    assert(t19 * q == (486) * mn(p, 5, 1, 0, 1, 0, 5, 1) + (-1458) * mn(p, 3, 1, 2, 1, 0, 5, 1) + (-486) * mn(p, 2, 3, 1, 1, 0, 5, 1) + (486) * mn(p, 2, 1, 3, 1, 0, 5, 2));
    lemma_tm(p, 27, 2, 1, 0, 0, 4, 2, 0, -1, 3, 0, 0, 0, 0, 0, 0);
    assert(t20 * s0 == (-27) * mn(p, 5, 1, 0, 0, 4, 2, 0));
    lemma_tm(p, 27, 2, 1, 0, 0, 4, 2, 0, 3, 1, 0, 2, 0, 0, 0, 0);
    assert(t20 * s1 == (81) * mn(p, 3, 1, 2, 0, 4, 2, 0));
    lemma_tm(p, 27, 2, 1, 0, 0, 4, 2, 0, 1, 0, 2, 1, 0, 0, 0, 0);
    assert(t20 * s2 == (27) * mn(p, 2, 3, 1, 0, 4, 2, 0));
    lemma_tm(p, 27, 2, 1, 0, 0, 4, 2, 0, -1, 0, 0, 3, 0, 0, 0, 1);
    assert(t20 * s3 == (-27) * mn(p, 2, 1, 3, 0, 4, 2, 1));
    assert(t20 * q == (-27) * mn(p, 5, 1, 0, 0, 4, 2, 0) + (81) * mn(p, 3, 1, 2, 0, 4, 2, 0) + (27) * mn(p, 2, 3, 1, 0, 4, 2, 0) + (-27) * mn(p, 2, 1, 3, 0, 4, 2, 1));
    lemma_tm(p, -81, 2, 1, 0, 0, 2, 4, 1, -1, 3, 0, 0, 0, 0, 0, 0);
    assert(t21 * s0 == (81) * mn(p, 5, 1, 0, 0, 2, 4, 1));
    lemma_tm(p, -81, 2, 1, 0, 0, 2, 4, 1, 3, 1, 0, 2, 0, 0, 0, 0);
    assert(t21 * s1 == (-243) * mn(p, 3, 1, 2, 0, 2, 4, 1));
    lemma_tm(p, -81, 2, 1, 0, 0, 2, 4, 1, 1, 0, 2, 1, 0, 0, 0, 0);
    assert(t21 * s2 == (-81) * mn(p, 2, 3, 1, 0, 2, 4, 1));
    lemma_tm(p, -81, 2, 1, 0, 0, 2, 4, 1, -1, 0, 0, 3, 0, 0, 0, 1);
    assert(t21 * s3 == (81) * mn(p, 2, 1, 3, 0, 2, 4, 2));
    assert(t21 * q == (81) * mn(p, 5, 1, 0, 0, 2, 4, 1) + (-243) * mn(p, 3, 1, 2, 0, 2, 4, 1) + (-81) * mn(p, 2, 3, 1, 0, 2, 4, 1) + (81) * mn(p, 2, 1, 3, 0, 2, 4, 2));
    lemma_tm(p, 243, 2, 1, 0, 0, 0, 6, 0, -1, 3, 0, 0, 0, 0, 0, 0);
    assert(t22 * s0 == (-243) * mn(p, 5, 1, 0, 0, 0, 6, 0));
    lemma_tm(p, 243, 2, 1, 0, 0, 0, 6, 0, 3, 1, 0, 2, 0, 0, 0, 0);
    assert(t22 * s1 == (729) * mn(p, 3, 1, 2, 0, 0, 6, 0));
    lemma_tm(p, 243, 2, 1, 0, 0, 0, 6, 0, 1, 0, 2, 1, 0, 0, 0, 0);
    assert(t22 * s2 == (243) * mn(p, 2, 3, 1, 0, 0, 6, 0));
    lemma_tm(p, 243, 2, 1, 0, 0, 0, 6, 0, -1, 0, 0, 3, 0, 0, 0, 1);
    assert(t22 * s3 == (-243) * mn(p, 2, 1, 3, 0, 0, 6, 1));
    assert(t22 * q == (-243) * mn(p, 5, 1, 0, 0, 0, 6, 0) + (729) * mn(p, 3, 1, 2, 0, 0, 6, 0) + (243) * mn(p, 2, 3, 1, 0, 0, 6, 0) + (-243) * mn(p, 2, 1, 3, 0, 0, 6, 1));
    lemma_tm(p, 486, 2, 0, 1, 5, 1, 0, 1, -1, 3, 0, 0, 0, 0, 0, 0);
    assert(t23 * s0 == (-486) * mn(p, 5, 0, 1, 5, 1, 0, 1));
    lemma_tm(p, 486, 2, 0, 1, 5, 1, 0, 1, 3, 1, 0, 2, 0, 0, 0, 0);
    assert(t23 * s1 == (1458) * mn(p, 3, 0, 3, 5, 1, 0, 1));
    lemma_tm(p, 486, 2, 0, 1, 5, 1, 0, 1, 1, 0, 2, 1, 0, 0, 0, 0);
    assert(t23 * s2 == (486) * mn(p, 2, 2, 2, 5, 1, 0, 1));
    lemma_tm(p, 486, 2, 0, 1, 5, 1, 0, 1, -1, 0, 0, 3, 0, 0, 0, 1);
    assert(t23 * s3 == (-486) * mn(p, 2, 0, 4, 5, 1, 0, 2));
    assert(t23 * q == (-486) * mn(p, 5, 0, 1, 5, 1, 0, 1) + (1458) * mn(p, 3, 0, 3, 5, 1, 0, 1) + (486) * mn(p, 2, 2, 2, 5, 1, 0, 1) + (-486) * mn(p, 2, 0, 4, 5, 1, 0, 2));
    lemma_tm(p, -486, 2, 0, 1, 4, 1, 1, 2, -1, 3, 0, 0, 0, 0, 0, 0);
    assert(t24 * s0 == (486) * mn(p, 5, 0, 1, 4, 1, 1, 2));
    lemma_tm(p, -486, 2, 0, 1, 4, 1, 1, 2, 3, 1, 0, 2, 0, 0, 0, 0);
    assert(t24 * s1 == (-1458) * mn(p, 3, 0, 3, 4, 1, 1, 2));
    lemma_tm(p, -486, 2, 0, 1, 4, 1, 1, 2, 1, 0, 2, 1, 0, 0, 0, 0);
    assert(t24 * s2 == (-486) * mn(p, 2, 2, 2, 4, 1, 1, 2));
    lemma_tm(p, -486, 2, 0, 1, 4, 1, 1, 2, -1, 0, 0, 3, 0, 0, 0, 1);
    assert(t24 * s3 == (486) * mn(p, 2, 0, 4, 4, 1, 1, 3));
    assert(t24 * q == (486) * mn(p, 5, 0, 1, 4, 1, 1, 2) + (-1458) * mn(p, 3, 0, 3, 4, 1, 1, 2) + (-486) * mn(p, 2, 2, 2, 4, 1, 1, 2) + (486) * mn(p, 2, 0, 4, 4, 1, 1, 3));
    lemma_tm(p, -1458, 2, 0, 1, 4, 1, 1, 0, -1, 3, 0, 0, 0, 0, 0, 0);
    assert(t25 * s0 == (1458) * mn(p, 5, 0, 1, 4, 1, 1, 0));
    lemma_tm(p, -1458, 2, 0, 1, 4, 1, 1, 0, 3, 1, 0, 2, 0, 0, 0, 0);
    assert(t25 * s1 == (-4374) * mn(p, 3, 0, 3, 4, 1, 1, 0));
    lemma_tm(p, -1458, 2, 0, 1, 4, 1, 1, 0, 1, 0, 2, 1, 0, 0, 0, 0);
    assert(t25 * s2 == (-1458) * mn(p, 2, 2, 2, 4, 1, 1, 0));
    lemma_tm(p, -1458, 2, 0, 1, 4, 1, 1, 0, -1, 0, 0, 3, 0, 0, 0, 1);
    assert(t25 * s3 == (1458) * mn(p, 2, 0, 4, 4, 1, 1, 1));
    assert(t25 * q == (1458) * mn(p, 5, 0, 1, 4, 1, 1, 0) + (-4374) * mn(p, 3, 0, 3, 4, 1, 1, 0) + (-1458) * mn(p, 2, 2, 2, 4, 1, 1, 0) + (1458) * mn(p, 2, 0, 4, 4, 1, 1, 1));
    lemma_tm(p, -162, 2, 0, 1, 3, 3, 0, 0, -1, 3, 0, 0, 0, 0, 0, 0);
    assert(t26 * s0 == (162) * mn(p, 5, 0, 1, 3, 3, 0, 0));
    lemma_tm(p, -162, 2, 0, 1, 3, 3, 0, 0, 3, 1, 0, 2, 0, 0, 0, 0);
    assert(t26 * s1 == (-486) * mn(p, 3, 0, 3, 3, 3, 0, 0));
    lemma_tm(p, -162, 2, 0, 1, 3, 3, 0, 0, 1, 0, 2, 1, 0, 0, 0, 0);
    assert(t26 * s2 == (-162) * mn(p, 2, 2, 2, 3, 3, 0, 0));
    lemma_tm(p, -162, 2, 0, 1, 3, 3, 0, 0, -1, 0, 0, 3, 0, 0, 0, 1);
    assert(t26 * s3 == (162) * mn(p, 2, 0, 4, 3, 3, 0, 1));
    assert(t26 * q == (162) * mn(p, 5, 0, 1, 3, 3, 0, 0) + (-486) * mn(p, 3, 0, 3, 3, 3, 0, 0) + (-162) * mn(p, 2, 2, 2, 3, 3, 0, 0) + (162) * mn(p, 2, 0, 4, 3, 3, 0, 1));
    lemma_tm(p, 1944, 2, 0, 1, 3, 1, 2, 1, -1, 3, 0, 0, 0, 0, 0, 0);
    assert(t27 * s0 == (-1944) * mn(p, 5, 0, 1, 3, 1, 2, 1));
    lemma_tm(p, 1944, 2, 0, 1, 3, 1, 2, 1, 3, 1, 0, 2, 0, 0, 0, 0);
    assert(t27 * s1 == (5832) * mn(p, 3, 0, 3, 3, 1, 2, 1));
    lemma_tm(p, 1944, 2, 0, 1, 3, 1, 2, 1, 1, 0, 2, 1, 0, 0, 0, 0);
    assert(t27 * s2 == (1944) * mn(p, 2, 2, 2, 3, 1, 2, 1));
    lemma_tm(p, 1944, 2, 0, 1, 3, 1, 2, 1, -1, 0, 0, 3, 0, 0, 0, 1);
    assert(t27 * s3 == (-1944) * mn(p, 2, 0, 4, 3, 1, 2, 2));
    assert(t27 * q == (-1944) * mn(p, 5, 0, 1, 3, 1, 2, 1) + (5832) * mn(p, 3, 0, 3, 3, 1, 2, 1) + (1944) * mn(p, 2, 2, 2, 3, 1, 2, 1) + (-1944) * mn(p, 2, 0, 4, 3, 1, 2, 2));
    lemma_tm(p, -972, 2, 0, 1, 2, 1, 3, 0, -1, 3, 0, 0, 0, 0, 0, 0);
    assert(t28 * s0 == (972) * mn(p, 5, 0, 1, 2, 1, 3, 0));
    lemma_tm(p, -972, 2, 0, 1, 2, 1, 3, 0, 3, 1, 0, 2, 0, 0, 0, 0);
    assert(t28 * s1 == (-2916) * mn(p, 3, 0, 3, 2, 1, 3, 0));
    lemma_tm(p, -972, 2, 0, 1, 2, 1, 3, 0, 1, 0, 2, 1, 0, 0, 0, 0);
    assert(t28 * s2 == (-972) * mn(p, 2, 2, 2, 2, 1, 3, 0));
    lemma_tm(p, -972, 2, 0, 1, 2, 1, 3, 0, -1, 0, 0, 3, 0, 0, 0, 1);
    assert(t28 * s3 == (972) * mn(p, 2, 0, 4, 2, 1, 3, 1));
    assert(t28 * q == (972) * mn(p, 5, 0, 1, 2, 1, 3, 0) + (-2916) * mn(p, 3, 0, 3, 2, 1, 3, 0) + (-972) * mn(p, 2, 2, 2, 2, 1, 3, 0) + (972) * mn(p, 2, 0, 4, 2, 1, 3, 1));
    lemma_tm(p, 486, 2, 0, 1, 1, 3, 2, 0, -1, 3, 0, 0, 0, 0, 0, 0);
    assert(t29 * s0 == (-486) * mn(p, 5, 0, 1, 1, 3, 2, 0));
    lemma_tm(p, 486, 2, 0, 1, 1, 3, 2, 0, 3, 1, 0, 2, 0, 0, 0, 0);
    assert(t29 * s1 == (1458) * mn(p, 3, 0, 3, 1, 3, 2, 0));
    lemma_tm(p, 486, 2, 0, 1, 1, 3, 2, 0, 1, 0, 2, 1, 0, 0, 0, 0);
    assert(t29 * s2 == (486) * mn(p, 2, 2, 2, 1, 3, 2, 0));
    lemma_tm(p, 486, 2, 0, 1, 1, 3, 2, 0, -1, 0, 0, 3, 0, 0, 0, 1);
    assert(t29 * s3 == (-486) * mn(p, 2, 0, 4, 1, 3, 2, 1));
    assert(t29 * q == (-486) * mn(p, 5, 0, 1, 1, 3, 2, 0) + (1458) * mn(p, 3, 0, 3, 1, 3, 2, 0) + (486) * mn(p, 2, 2, 2, 1, 3, 2, 0) + (-486) * mn(p, 2, 0, 4, 1, 3, 2, 1));
    lemma_tm(p, -486, 2, 0, 1, 1, 1, 4, 1, -1, 3, 0, 0, 0, 0, 0, 0);
    assert(t30 * s0 == (486) * mn(p, 5, 0, 1, 1, 1, 4, 1));
    lemma_tm(p, -486, 2, 0, 1, 1, 1, 4, 1, 3, 1, 0, 2, 0, 0, 0, 0);
    assert(t30 * s1 == (-1458) * mn(p, 3, 0, 3, 1, 1, 4, 1));
    lemma_tm(p, -486, 2, 0, 1, 1, 1, 4, 1, 1, 0, 2, 1, 0, 0, 0, 0);
    assert(t30 * s2 == (-486) * mn(p, 2, 2, 2, 1, 1, 4, 1));
    lemma_tm(p, -486, 2, 0, 1, 1, 1, 4, 1, -1, 0, 0, 3, 0, 0, 0, 1);
    assert(t30 * s3 == (486) * mn(p, 2, 0, 4, 1, 1, 4, 2));
    assert(t30 * q == (486) * mn(p, 5, 0, 1, 1, 1, 4, 1) + (-1458) * mn(p, 3, 0, 3, 1, 1, 4, 1) + (-486) * mn(p, 2, 2, 2, 1, 1, 4, 1) + (486) * mn(p, 2, 0, 4, 1, 1, 4, 2));
    lemma_tm(p, -162, 2, 0, 1, 0, 3, 3, 1, -1, 3, 0, 0, 0, 0, 0, 0);
    assert(t31 * s0 == (162) * mn(p, 5, 0, 1, 0, 3, 3, 1));
    lemma_tm(p, -162, 2, 0, 1, 0, 3, 3, 1, 3, 1, 0, 2, 0, 0, 0, 0);
    assert(t31 * s1 == (-486) * mn(p, 3, 0, 3, 0, 3, 3, 1));
    lemma_tm(p, -162, 2, 0, 1, 0, 3, 3, 1, 1, 0, 2, 1, 0, 0, 0, 0);
    assert(t31 * s2 == (-162) * mn(p, 2, 2, 2, 0, 3, 3, 1));
    lemma_tm(p, -162, 2, 0, 1, 0, 3, 3, 1, -1, 0, 0, 3, 0, 0, 0, 1);
    assert(t31 * s3 == (162) * mn(p, 2, 0, 4, 0, 3, 3, 2));
    assert(t31 * q == (162) * mn(p, 5, 0, 1, 0, 3, 3, 1) + (-486) * mn(p, 3, 0, 3, 0, 3, 3, 1) + (-162) * mn(p, 2, 2, 2, 0, 3, 3, 1) + (162) * mn(p, 2, 0, 4, 0, 3, 3, 2));
    assert(pp31 * q == (((((((243) * mn(p, 6, 0, 0, 5, 1, 0, 0) + ((-486) * mn(p, 6, 0, 0, 4, 1, 1, 1) + (-27) * mn(p, 6, 0, 0, 3, 3, 0, 1))) + (((243) * mn(p, 6, 0, 0, 3, 1, 2, 2) + (486) * mn(p, 6, 0, 0, 3, 1, 2, 0)) + ((81) * mn(p, 6, 0, 0, 2, 3, 1, 0) + (-486) * mn(p, 6, 0, 0, 2, 1, 3, 1)))) + ((((243) * mn(p, 6, 0, 0, 1, 1, 4, 0) + (-27) * mn(p, 6, 0, 0, 0, 3, 3, 0)) + ((243) * mn(p, 5, 1, 0, 6, 0, 0, 0) + (-486) * mn(p, 5, 1, 0, 5, 0, 1, 1))) + (((-81) * mn(p, 5, 1, 0, 4, 2, 0, 1) + (243) * mn(p, 5, 1, 0, 4, 0, 2, 2)) + ((243) * mn(p, 5, 1, 0, 4, 0, 2, 0) + (324) * mn(p, 5, 1, 0, 3, 2, 1, 0))))) + ((((27) * mn(p, 5, 1, 0, 2, 4, 0, 0) + ((-243) * mn(p, 5, 1, 0, 2, 0, 4, 2) + (-243) * mn(p, 5, 1, 0, 2, 0, 4, 0))) + (((-324) * mn(p, 5, 1, 0, 1, 2, 3, 0) + (486) * mn(p, 5, 1, 0, 1, 0, 5, 1)) + ((-27) * mn(p, 5, 1, 0, 0, 4, 2, 0) + (81) * mn(p, 5, 1, 0, 0, 2, 4, 1)))) + ((((-243) * mn(p, 5, 1, 0, 0, 0, 6, 0) + (-486) * mn(p, 5, 0, 1, 5, 1, 0, 1)) + ((486) * mn(p, 5, 0, 1, 4, 1, 1, 2) + (1458) * mn(p, 5, 0, 1, 4, 1, 1, 0))) + (((162) * mn(p, 5, 0, 1, 3, 3, 0, 0) + (-1944) * mn(p, 5, 0, 1, 3, 1, 2, 1)) + ((972) * mn(p, 5, 0, 1, 2, 1, 3, 0) + (-486) * mn(p, 5, 0, 1, 1, 3, 2, 0)))))) + (((((486) * mn(p, 5, 0, 1, 1, 1, 4, 1) + ((162) * mn(p, 5, 0, 1, 0, 3, 3, 1) + (-729) * mn(p, 4, 0, 2, 5, 1, 0, 0))) + (((1458) * mn(p, 4, 0, 2, 4, 1, 1, 1) + (81) * mn(p, 4, 0, 2, 3, 3, 0, 1)) + ((-729) * mn(p, 4, 0, 2, 3, 1, 2, 2) + (-1458) * mn(p, 4, 0, 2, 3, 1, 2, 0)))) + ((((-243) * mn(p, 4, 0, 2, 2, 3, 1, 0) + (1458) * mn(p, 4, 0, 2, 2, 1, 3, 1)) + ((-729) * mn(p, 4, 0, 2, 1, 1, 4, 0) + (81) * mn(p, 4, 0, 2, 0, 3, 3, 0))) + (((-243) * mn(p, 3, 2, 1, 5, 1, 0, 0) + (486) * mn(p, 3, 2, 1, 4, 1, 1, 1)) + ((27) * mn(p, 3, 2, 1, 3, 3, 0, 1) + (-243) * mn(p, 3, 2, 1, 3, 1, 2, 2))))) + (((((-486) * mn(p, 3, 2, 1, 3, 1, 2, 0) + (-81) * mn(p, 3, 2, 1, 2, 3, 1, 0)) + ((486) * mn(p, 3, 2, 1, 2, 1, 3, 1) + (-243) * mn(p, 3, 2, 1, 1, 1, 4, 0))) + (((27) * mn(p, 3, 2, 1, 0, 3, 3, 0) + (-729) * mn(p, 3, 1, 2, 6, 0, 0, 0)) + ((1458) * mn(p, 3, 1, 2, 5, 0, 1, 1) + (243) * mn(p, 3, 1, 2, 4, 2, 0, 1)))) + ((((-729) * mn(p, 3, 1, 2, 4, 0, 2, 2) + (-729) * mn(p, 3, 1, 2, 4, 0, 2, 0)) + ((-972) * mn(p, 3, 1, 2, 3, 2, 1, 0) + (-81) * mn(p, 3, 1, 2, 2, 4, 0, 0))) + (((729) * mn(p, 3, 1, 2, 2, 0, 4, 2) + (729) * mn(p, 3, 1, 2, 2, 0, 4, 0)) + ((972) * mn(p, 3, 1, 2, 1, 2, 3, 0) + (-1458) * mn(p, 3, 1, 2, 1, 0, 5, 1))))))) + ((((((81) * mn(p, 3, 1, 2, 0, 4, 2, 0) + ((-243) * mn(p, 3, 1, 2, 0, 2, 4, 1) + (729) * mn(p, 3, 1, 2, 0, 0, 6, 0))) + (((1701) * mn(p, 3, 0, 3, 5, 1, 0, 1) + (-1944) * mn(p, 3, 0, 3, 4, 1, 1, 2)) + ((-4374) * mn(p, 3, 0, 3, 4, 1, 1, 0) + (-27) * mn(p, 3, 0, 3, 3, 3, 0, 2)))) + ((((-486) * mn(p, 3, 0, 3, 3, 3, 0, 0) + (243) * mn(p, 3, 0, 3, 3, 1, 2, 3)) + ((6318) * mn(p, 3, 0, 3, 3, 1, 2, 1) + (81) * mn(p, 3, 0, 3, 2, 3, 1, 1))) + (((-486) * mn(p, 3, 0, 3, 2, 1, 3, 2) + (-2916) * mn(p, 3, 0, 3, 2, 1, 3, 0)) + ((1458) * mn(p, 3, 0, 3, 1, 3, 2, 0) + (-1215) * mn(p, 3, 0, 3, 1, 1, 4, 1))))) + (((((-513) * mn(p, 3, 0, 3, 0, 3, 3, 1) + (-243) * mn(p, 2, 3, 1, 6, 0, 0, 0)) + ((486) * mn(p, 2, 3, 1, 5, 0, 1, 1) + (81) * mn(p, 2, 3, 1, 4, 2, 0, 1))) + (((-243) * mn(p, 2, 3, 1, 4, 0, 2, 2) + (-243) * mn(p, 2, 3, 1, 4, 0, 2, 0)) + ((-324) * mn(p, 2, 3, 1, 3, 2, 1, 0) + (-27) * mn(p, 2, 3, 1, 2, 4, 0, 0)))) + ((((243) * mn(p, 2, 3, 1, 2, 0, 4, 2) + (243) * mn(p, 2, 3, 1, 2, 0, 4, 0)) + ((324) * mn(p, 2, 3, 1, 1, 2, 3, 0) + (-486) * mn(p, 2, 3, 1, 1, 0, 5, 1))) + (((27) * mn(p, 2, 3, 1, 0, 4, 2, 0) + (-81) * mn(p, 2, 3, 1, 0, 2, 4, 1)) + ((243) * mn(p, 2, 3, 1, 0, 0, 6, 0) + (486) * mn(p, 2, 2, 2, 5, 1, 0, 1)))))) + (((((-486) * mn(p, 2, 2, 2, 4, 1, 1, 2) + ((-1458) * mn(p, 2, 2, 2, 4, 1, 1, 0) + (-162) * mn(p, 2, 2, 2, 3, 3, 0, 0))) + (((1944) * mn(p, 2, 2, 2, 3, 1, 2, 1) + (-972) * mn(p, 2, 2, 2, 2, 1, 3, 0)) + ((486) * mn(p, 2, 2, 2, 1, 3, 2, 0) + (-486) * mn(p, 2, 2, 2, 1, 1, 4, 1)))) + ((((-162) * mn(p, 2, 2, 2, 0, 3, 3, 1) + (243) * mn(p, 2, 1, 3, 6, 0, 0, 1)) + ((-486) * mn(p, 2, 1, 3, 5, 0, 1, 2) + (-81) * mn(p, 2, 1, 3, 4, 2, 0, 2))) + (((243) * mn(p, 2, 1, 3, 4, 0, 2, 3) + (243) * mn(p, 2, 1, 3, 4, 0, 2, 1)) + ((324) * mn(p, 2, 1, 3, 3, 2, 1, 1) + (27) * mn(p, 2, 1, 3, 2, 4, 0, 1))))) + (((((-243) * mn(p, 2, 1, 3, 2, 0, 4, 3) + (-243) * mn(p, 2, 1, 3, 2, 0, 4, 1)) + ((-324) * mn(p, 2, 1, 3, 1, 2, 3, 1) + (486) * mn(p, 2, 1, 3, 1, 0, 5, 2))) + (((-27) * mn(p, 2, 1, 3, 0, 4, 2, 1) + (81) * mn(p, 2, 1, 3, 0, 2, 4, 2)) + ((-243) * mn(p, 2, 1, 3, 0, 0, 6, 1) + (-486) * mn(p, 2, 0, 4, 5, 1, 0, 2)))) + ((((486) * mn(p, 2, 0, 4, 4, 1, 1, 3) + (1458) * mn(p, 2, 0, 4, 4, 1, 1, 1)) + ((162) * mn(p, 2, 0, 4, 3, 3, 0, 1) + (-1944) * mn(p, 2, 0, 4, 3, 1, 2, 2))) + (((972) * mn(p, 2, 0, 4, 2, 1, 3, 1) + (-486) * mn(p, 2, 0, 4, 1, 3, 2, 1)) + ((486) * mn(p, 2, 0, 4, 1, 1, 4, 2) + (162) * mn(p, 2, 0, 4, 0, 3, 3, 2)))))))));
    assert(pp31 == ((((((-243) * mn(p, 3, 0, 0, 5, 1, 0, 0) + (486) * mn(p, 3, 0, 0, 4, 1, 1, 1)) + ((27) * mn(p, 3, 0, 0, 3, 3, 0, 1) + (-243) * mn(p, 3, 0, 0, 3, 1, 2, 2))) + (((-486) * mn(p, 3, 0, 0, 3, 1, 2, 0) + (-81) * mn(p, 3, 0, 0, 2, 3, 1, 0)) + ((486) * mn(p, 3, 0, 0, 2, 1, 3, 1) + (-243) * mn(p, 3, 0, 0, 1, 1, 4, 0)))) + ((((27) * mn(p, 3, 0, 0, 0, 3, 3, 0) + (-243) * mn(p, 2, 1, 0, 6, 0, 0, 0)) + ((486) * mn(p, 2, 1, 0, 5, 0, 1, 1) + (81) * mn(p, 2, 1, 0, 4, 2, 0, 1))) + (((-243) * mn(p, 2, 1, 0, 4, 0, 2, 2) + (-243) * mn(p, 2, 1, 0, 4, 0, 2, 0)) + ((-324) * mn(p, 2, 1, 0, 3, 2, 1, 0) + (-27) * mn(p, 2, 1, 0, 2, 4, 0, 0))))) + (((((243) * mn(p, 2, 1, 0, 2, 0, 4, 2) + (243) * mn(p, 2, 1, 0, 2, 0, 4, 0)) + ((324) * mn(p, 2, 1, 0, 1, 2, 3, 0) + (-486) * mn(p, 2, 1, 0, 1, 0, 5, 1))) + (((27) * mn(p, 2, 1, 0, 0, 4, 2, 0) + (-81) * mn(p, 2, 1, 0, 0, 2, 4, 1)) + ((243) * mn(p, 2, 1, 0, 0, 0, 6, 0) + (486) * mn(p, 2, 0, 1, 5, 1, 0, 1)))) + ((((-486) * mn(p, 2, 0, 1, 4, 1, 1, 2) + (-1458) * mn(p, 2, 0, 1, 4, 1, 1, 0)) + ((-162) * mn(p, 2, 0, 1, 3, 3, 0, 0) + (1944) * mn(p, 2, 0, 1, 3, 1, 2, 1))) + (((-972) * mn(p, 2, 0, 1, 2, 1, 3, 0) + (486) * mn(p, 2, 0, 1, 1, 3, 2, 0)) + ((-486) * mn(p, 2, 0, 1, 1, 1, 4, 1) + (-162) * mn(p, 2, 0, 1, 0, 3, 3, 1)))))));
    assert(q == (((-1) * mn(p, 3, 0, 0, 0, 0, 0, 0) + (3) * mn(p, 1, 0, 2, 0, 0, 0, 0)) + ((1) * mn(p, 0, 2, 1, 0, 0, 0, 0) + (-1) * mn(p, 0, 0, 3, 0, 0, 0, 1))));
}

#[verifier::rlimit(100)]
proof fn acc_prod36_c1(p: Pt)
    ensures
        (((((((486) * mn(p, 2, 0, 1, 0, 1, 5, 0) + (81) * mn(p, 1, 2, 0, 5, 1, 0, 1)) + ((-486) * mn(p, 1, 2, 0, 4, 1, 1, 0) + (-27) * mn(p, 1, 2, 0, 3, 3, 0, 0))) + (((162) * mn(p, 1, 2, 0, 3, 1, 2, 1) + (-27) * mn(p, 1, 2, 0, 2, 3, 1, 1)) + ((-81) * mn(p, 1, 2, 0, 2, 1, 3, 2) + (648) * mn(p, 1, 2, 0, 2, 1, 3, 0)))) + ((((189) * mn(p, 1, 2, 0, 1, 3, 2, 0) + (-243) * mn(p, 1, 2, 0, 1, 1, 4, 1)) + ((9) * mn(p, 1, 2, 0, 0, 5, 1, 0) + (-54) * mn(p, 1, 2, 0, 0, 3, 3, 1))) + (((81) * mn(p, 1, 2, 0, 0, 1, 5, 2) + (-162) * mn(p, 1, 2, 0, 0, 1, 5, 0)) + ((486) * mn(p, 1, 1, 1, 6, 0, 0, 1) + (-486) * mn(p, 1, 1, 1, 5, 0, 1, 2))))) + (((((-1458) * mn(p, 1, 1, 1, 5, 0, 1, 0) + (-486) * mn(p, 1, 1, 1, 4, 2, 0, 0)) + ((1215) * mn(p, 1, 1, 1, 4, 0, 2, 1) + (162) * mn(p, 1, 1, 1, 3, 2, 1, 1))) + (((972) * mn(p, 1, 1, 1, 3, 0, 3, 2) + (972) * mn(p, 1, 1, 1, 3, 0, 3, 0)) + ((27) * mn(p, 1, 1, 1, 2, 4, 0, 1) + (1944) * mn(p, 1, 1, 1, 2, 2, 2, 0)))) + ((((-243) * mn(p, 1, 1, 1, 2, 0, 4, 3) + (-3888) * mn(p, 1, 1, 1, 2, 0, 4, 1)) + ((162) * mn(p, 1, 1, 1, 1, 4, 1, 0) + (-1458) * mn(p, 1, 1, 1, 1, 2, 3, 1))) + (((972) * mn(p, 1, 1, 1, 1, 0, 5, 2) + (2430) * mn(p, 1, 1, 1, 1, 0, 5, 0)) + ((-108) * mn(p, 1, 1, 1, 0, 4, 2, 1) + (324) * mn(p, 1, 1, 1, 0, 2, 4, 2))))))) * ((((-1) * mn(p, 3, 0, 0, 0, 0, 0, 0) + (3) * mn(p, 1, 0, 2, 0, 0, 0, 0)) + ((1) * mn(p, 0, 2, 1, 0, 0, 0, 0) + (-1) * mn(p, 0, 0, 3, 0, 0, 0, 1)))) == (((((((-486) * mn(p, 5, 0, 1, 0, 1, 5, 0) + ((-81) * mn(p, 4, 2, 0, 5, 1, 0, 1) + (486) * mn(p, 4, 2, 0, 4, 1, 1, 0))) + (((27) * mn(p, 4, 2, 0, 3, 3, 0, 0) + (-162) * mn(p, 4, 2, 0, 3, 1, 2, 1)) + ((27) * mn(p, 4, 2, 0, 2, 3, 1, 1) + (81) * mn(p, 4, 2, 0, 2, 1, 3, 2)))) + ((((-648) * mn(p, 4, 2, 0, 2, 1, 3, 0) + (-189) * mn(p, 4, 2, 0, 1, 3, 2, 0)) + ((243) * mn(p, 4, 2, 0, 1, 1, 4, 1) + (-9) * mn(p, 4, 2, 0, 0, 5, 1, 0))) + (((54) * mn(p, 4, 2, 0, 0, 3, 3, 1) + (-81) * mn(p, 4, 2, 0, 0, 1, 5, 2)) + ((162) * mn(p, 4, 2, 0, 0, 1, 5, 0) + (-486) * mn(p, 4, 1, 1, 6, 0, 0, 1))))) + (((((486) * mn(p, 4, 1, 1, 5, 0, 1, 2) + (1458) * mn(p, 4, 1, 1, 5, 0, 1, 0)) + ((486) * mn(p, 4, 1, 1, 4, 2, 0, 0) + (-1215) * mn(p, 4, 1, 1, 4, 0, 2, 1))) + (((-162) * mn(p, 4, 1, 1, 3, 2, 1, 1) + (-972) * mn(p, 4, 1, 1, 3, 0, 3, 2)) + ((-972) * mn(p, 4, 1, 1, 3, 0, 3, 0) + (-27) * mn(p, 4, 1, 1, 2, 4, 0, 1)))) + ((((-1944) * mn(p, 4, 1, 1, 2, 2, 2, 0) + (243) * mn(p, 4, 1, 1, 2, 0, 4, 3)) + ((3888) * mn(p, 4, 1, 1, 2, 0, 4, 1) + (-162) * mn(p, 4, 1, 1, 1, 4, 1, 0))) + (((1458) * mn(p, 4, 1, 1, 1, 2, 3, 1) + (-972) * mn(p, 4, 1, 1, 1, 0, 5, 2)) + ((-2430) * mn(p, 4, 1, 1, 1, 0, 5, 0) + (108) * mn(p, 4, 1, 1, 0, 4, 2, 1)))))) + ((((((-324) * mn(p, 4, 1, 1, 0, 2, 4, 2) + (1458) * mn(p, 3, 0, 3, 0, 1, 5, 0)) + ((243) * mn(p, 2, 2, 2, 5, 1, 0, 1) + (-1458) * mn(p, 2, 2, 2, 4, 1, 1, 0))) + (((-81) * mn(p, 2, 2, 2, 3, 3, 0, 0) + (486) * mn(p, 2, 2, 2, 3, 1, 2, 1)) + ((-81) * mn(p, 2, 2, 2, 2, 3, 1, 1) + (-243) * mn(p, 2, 2, 2, 2, 1, 3, 2)))) + ((((1944) * mn(p, 2, 2, 2, 2, 1, 3, 0) + (567) * mn(p, 2, 2, 2, 1, 3, 2, 0)) + ((-729) * mn(p, 2, 2, 2, 1, 1, 4, 1) + (27) * mn(p, 2, 2, 2, 0, 5, 1, 0))) + (((-162) * mn(p, 2, 2, 2, 0, 3, 3, 1) + (243) * mn(p, 2, 2, 2, 0, 1, 5, 2)) + ((1458) * mn(p, 2, 1, 3, 6, 0, 0, 1) + (-1458) * mn(p, 2, 1, 3, 5, 0, 1, 2))))) + (((((-4374) * mn(p, 2, 1, 3, 5, 0, 1, 0) + (-1458) * mn(p, 2, 1, 3, 4, 2, 0, 0)) + ((3645) * mn(p, 2, 1, 3, 4, 0, 2, 1) + (486) * mn(p, 2, 1, 3, 3, 2, 1, 1))) + (((2916) * mn(p, 2, 1, 3, 3, 0, 3, 2) + (2916) * mn(p, 2, 1, 3, 3, 0, 3, 0)) + ((81) * mn(p, 2, 1, 3, 2, 4, 0, 1) + (5832) * mn(p, 2, 1, 3, 2, 2, 2, 0)))) + ((((-729) * mn(p, 2, 1, 3, 2, 0, 4, 3) + (-11664) * mn(p, 2, 1, 3, 2, 0, 4, 1)) + ((486) * mn(p, 2, 1, 3, 1, 4, 1, 0) + (-4374) * mn(p, 2, 1, 3, 1, 2, 3, 1))) + (((2916) * mn(p, 2, 1, 3, 1, 0, 5, 2) + (7290) * mn(p, 2, 1, 3, 1, 0, 5, 0)) + ((-324) * mn(p, 2, 1, 3, 0, 4, 2, 1) + (972) * mn(p, 2, 1, 3, 0, 2, 4, 2))))))) + ((((((-486) * mn(p, 2, 0, 4, 0, 1, 5, 1) + ((81) * mn(p, 1, 4, 1, 5, 1, 0, 1) + (-486) * mn(p, 1, 4, 1, 4, 1, 1, 0))) + (((-27) * mn(p, 1, 4, 1, 3, 3, 0, 0) + (162) * mn(p, 1, 4, 1, 3, 1, 2, 1)) + ((-27) * mn(p, 1, 4, 1, 2, 3, 1, 1) + (-81) * mn(p, 1, 4, 1, 2, 1, 3, 2)))) + ((((648) * mn(p, 1, 4, 1, 2, 1, 3, 0) + (189) * mn(p, 1, 4, 1, 1, 3, 2, 0)) + ((-243) * mn(p, 1, 4, 1, 1, 1, 4, 1) + (9) * mn(p, 1, 4, 1, 0, 5, 1, 0))) + (((-54) * mn(p, 1, 4, 1, 0, 3, 3, 1) + (81) * mn(p, 1, 4, 1, 0, 1, 5, 2)) + ((-162) * mn(p, 1, 4, 1, 0, 1, 5, 0) + (486) * mn(p, 1, 3, 2, 6, 0, 0, 1))))) + (((((-486) * mn(p, 1, 3, 2, 5, 0, 1, 2) + (-1458) * mn(p, 1, 3, 2, 5, 0, 1, 0)) + ((-486) * mn(p, 1, 3, 2, 4, 2, 0, 0) + (1215) * mn(p, 1, 3, 2, 4, 0, 2, 1))) + (((162) * mn(p, 1, 3, 2, 3, 2, 1, 1) + (972) * mn(p, 1, 3, 2, 3, 0, 3, 2)) + ((972) * mn(p, 1, 3, 2, 3, 0, 3, 0) + (27) * mn(p, 1, 3, 2, 2, 4, 0, 1)))) + ((((1944) * mn(p, 1, 3, 2, 2, 2, 2, 0) + (-243) * mn(p, 1, 3, 2, 2, 0, 4, 3)) + ((-3888) * mn(p, 1, 3, 2, 2, 0, 4, 1) + (162) * mn(p, 1, 3, 2, 1, 4, 1, 0))) + (((-1458) * mn(p, 1, 3, 2, 1, 2, 3, 1) + (972) * mn(p, 1, 3, 2, 1, 0, 5, 2)) + ((2430) * mn(p, 1, 3, 2, 1, 0, 5, 0) + (-108) * mn(p, 1, 3, 2, 0, 4, 2, 1)))))) + ((((((324) * mn(p, 1, 3, 2, 0, 2, 4, 2) + (-81) * mn(p, 1, 2, 3, 5, 1, 0, 2)) + ((486) * mn(p, 1, 2, 3, 4, 1, 1, 1) + (27) * mn(p, 1, 2, 3, 3, 3, 0, 1))) + (((-162) * mn(p, 1, 2, 3, 3, 1, 2, 2) + (27) * mn(p, 1, 2, 3, 2, 3, 1, 2)) + ((81) * mn(p, 1, 2, 3, 2, 1, 3, 3) + (-648) * mn(p, 1, 2, 3, 2, 1, 3, 1)))) + ((((-189) * mn(p, 1, 2, 3, 1, 3, 2, 1) + (243) * mn(p, 1, 2, 3, 1, 1, 4, 2)) + ((-9) * mn(p, 1, 2, 3, 0, 5, 1, 1) + (54) * mn(p, 1, 2, 3, 0, 3, 3, 2))) + (((-81) * mn(p, 1, 2, 3, 0, 1, 5, 3) + (162) * mn(p, 1, 2, 3, 0, 1, 5, 1)) + ((-486) * mn(p, 1, 1, 4, 6, 0, 0, 2) + (486) * mn(p, 1, 1, 4, 5, 0, 1, 3))))) + (((((1458) * mn(p, 1, 1, 4, 5, 0, 1, 1) + (486) * mn(p, 1, 1, 4, 4, 2, 0, 1)) + ((-1215) * mn(p, 1, 1, 4, 4, 0, 2, 2) + (-162) * mn(p, 1, 1, 4, 3, 2, 1, 2))) + (((-972) * mn(p, 1, 1, 4, 3, 0, 3, 3) + (-972) * mn(p, 1, 1, 4, 3, 0, 3, 1)) + ((-27) * mn(p, 1, 1, 4, 2, 4, 0, 2) + (-1944) * mn(p, 1, 1, 4, 2, 2, 2, 1)))) + ((((243) * mn(p, 1, 1, 4, 2, 0, 4, 4) + (3888) * mn(p, 1, 1, 4, 2, 0, 4, 2)) + ((-162) * mn(p, 1, 1, 4, 1, 4, 1, 1) + (1458) * mn(p, 1, 1, 4, 1, 2, 3, 2))) + (((-972) * mn(p, 1, 1, 4, 1, 0, 5, 3) + (-2430) * mn(p, 1, 1, 4, 1, 0, 5, 1)) + ((108) * mn(p, 1, 1, 4, 0, 4, 2, 2) + (-324) * mn(p, 1, 1, 4, 0, 2, 4, 3)))))))),
{
    let t0 = (486) * mn(p, 2, 0, 1, 0, 1, 5, 0);
    let t1 = (81) * mn(p, 1, 2, 0, 5, 1, 0, 1);
    let t2 = (-486) * mn(p, 1, 2, 0, 4, 1, 1, 0);
    let t3 = (-27) * mn(p, 1, 2, 0, 3, 3, 0, 0);
    let t4 = (162) * mn(p, 1, 2, 0, 3, 1, 2, 1);
    let t5 = (-27) * mn(p, 1, 2, 0, 2, 3, 1, 1);
    let t6 = (-81) * mn(p, 1, 2, 0, 2, 1, 3, 2);
    let t7 = (648) * mn(p, 1, 2, 0, 2, 1, 3, 0);
    let t8 = (189) * mn(p, 1, 2, 0, 1, 3, 2, 0);
    let t9 = (-243) * mn(p, 1, 2, 0, 1, 1, 4, 1);
    let t10 = (9) * mn(p, 1, 2, 0, 0, 5, 1, 0);
    let t11 = (-54) * mn(p, 1, 2, 0, 0, 3, 3, 1);
    let t12 = (81) * mn(p, 1, 2, 0, 0, 1, 5, 2);
    let t13 = (-162) * mn(p, 1, 2, 0, 0, 1, 5, 0);
    let t14 = (486) * mn(p, 1, 1, 1, 6, 0, 0, 1);
    let t15 = (-486) * mn(p, 1, 1, 1, 5, 0, 1, 2);
    let t16 = (-1458) * mn(p, 1, 1, 1, 5, 0, 1, 0);
    let t17 = (-486) * mn(p, 1, 1, 1, 4, 2, 0, 0);
    let t18 = (1215) * mn(p, 1, 1, 1, 4, 0, 2, 1);
    let t19 = (162) * mn(p, 1, 1, 1, 3, 2, 1, 1);
    let t20 = (972) * mn(p, 1, 1, 1, 3, 0, 3, 2);
    let t21 = (972) * mn(p, 1, 1, 1, 3, 0, 3, 0);
    let t22 = (27) * mn(p, 1, 1, 1, 2, 4, 0, 1);
    let t23 = (1944) * mn(p, 1, 1, 1, 2, 2, 2, 0);
    let t24 = (-243) * mn(p, 1, 1, 1, 2, 0, 4, 3);
    let t25 = (-3888) * mn(p, 1, 1, 1, 2, 0, 4, 1);
    let t26 = (162) * mn(p, 1, 1, 1, 1, 4, 1, 0);
    let t27 = (-1458) * mn(p, 1, 1, 1, 1, 2, 3, 1);
    let t28 = (972) * mn(p, 1, 1, 1, 1, 0, 5, 2);
    let t29 = (2430) * mn(p, 1, 1, 1, 1, 0, 5, 0);
    let t30 = (-108) * mn(p, 1, 1, 1, 0, 4, 2, 1);
    let t31 = (324) * mn(p, 1, 1, 1, 0, 2, 4, 2);
    let s0 = (-1) * mn(p, 3, 0, 0, 0, 0, 0, 0);
    let s1 = (3) * mn(p, 1, 0, 2, 0, 0, 0, 0);
    let s2 = (1) * mn(p, 0, 2, 1, 0, 0, 0, 0);
    let s3 = (-1) * mn(p, 0, 0, 3, 0, 0, 0, 1);
    let pp0 = t0;
    let pp1 = pp0 + t1;
    let pp2 = pp1 + t2;
    let pp3 = pp2 + t3;
    let pp4 = pp3 + t4;
    let pp5 = pp4 + t5;
    let pp6 = pp5 + t6;
    let pp7 = pp6 + t7;
    let pp8 = pp7 + t8;
    let pp9 = pp8 + t9;
    let pp10 = pp9 + t10;
    let pp11 = pp10 + t11;
    let pp12 = pp11 + t12;
    let pp13 = pp12 + t13;
    let pp14 = pp13 + t14;
    let pp15 = pp14 + t15;
    let pp16 = pp15 + t16;
    let pp17 = pp16 + t17;
    let pp18 = pp17 + t18;
    let pp19 = pp18 + t19;
    let pp20 = pp19 + t20;
    let pp21 = pp20 + t21;
    let pp22 = pp21 + t22;
    let pp23 = pp22 + t23;
    let pp24 = pp23 + t24;
    let pp25 = pp24 + t25;
    let pp26 = pp25 + t26;
    let pp27 = pp26 + t27;
    let pp28 = pp27 + t28;
    let pp29 = pp28 + t29;
    let pp30 = pp29 + t30;
    let pp31 = pp30 + t31;
    let qq0 = s0;
    let qq1 = qq0 + s1;
    let qq2 = qq1 + s2;
    let qq3 = qq2 + s3;
    let q = qq3;
    lemma_mul_is_distributive_add_other_way(q, pp0, t1);
    lemma_mul_is_distributive_add_other_way(q, pp1, t2);
    lemma_mul_is_distributive_add_other_way(q, pp2, t3);
    lemma_mul_is_distributive_add_other_way(q, pp3, t4);
    lemma_mul_is_distributive_add_other_way(q, pp4, t5);
    lemma_mul_is_distributive_add_other_way(q, pp5, t6);
    lemma_mul_is_distributive_add_other_way(q, pp6, t7);
    lemma_mul_is_distributive_add_other_way(q, pp7, t8);
    lemma_mul_is_distributive_add_other_way(q, pp8, t9);
    lemma_mul_is_distributive_add_other_way(q, pp9, t10);
    lemma_mul_is_distributive_add_other_way(q, pp10, t11);
    lemma_mul_is_distributive_add_other_way(q, pp11, t12);
    lemma_mul_is_distributive_add_other_way(q, pp12, t13);
    lemma_mul_is_distributive_add_other_way(q, pp13, t14);
    lemma_mul_is_distributive_add_other_way(q, pp14, t15);
    lemma_mul_is_distributive_add_other_way(q, pp15, t16);
    lemma_mul_is_distributive_add_other_way(q, pp16, t17);
    lemma_mul_is_distributive_add_other_way(q, pp17, t18);
    lemma_mul_is_distributive_add_other_way(q, pp18, t19);
    lemma_mul_is_distributive_add_other_way(q, pp19, t20);
    lemma_mul_is_distributive_add_other_way(q, pp20, t21);
    lemma_mul_is_distributive_add_other_way(q, pp21, t22);
    lemma_mul_is_distributive_add_other_way(q, pp22, t23);
    lemma_mul_is_distributive_add_other_way(q, pp23, t24);
    lemma_mul_is_distributive_add_other_way(q, pp24, t25);
    lemma_mul_is_distributive_add_other_way(q, pp25, t26);
    lemma_mul_is_distributive_add_other_way(q, pp26, t27);
    lemma_mul_is_distributive_add_other_way(q, pp27, t28);
    lemma_mul_is_distributive_add_other_way(q, pp28, t29);
    lemma_mul_is_distributive_add_other_way(q, pp29, t30);
    lemma_mul_is_distributive_add_other_way(q, pp30, t31);
    lemma_mul_is_distributive_add(t0, qq0, s1);
    lemma_mul_is_distributive_add(t0, qq1, s2);
    lemma_mul_is_distributive_add(t0, qq2, s3);
    lemma_mul_is_distributive_add(t1, qq0, s1);
    lemma_mul_is_distributive_add(t1, qq1, s2);
    lemma_mul_is_distributive_add(t1, qq2, s3);
    lemma_mul_is_distributive_add(t2, qq0, s1);
    lemma_mul_is_distributive_add(t2, qq1, s2);
    lemma_mul_is_distributive_add(t2, qq2, s3);
    lemma_mul_is_distributive_add(t3, qq0, s1);
    lemma_mul_is_distributive_add(t3, qq1, s2);
    lemma_mul_is_distributive_add(t3, qq2, s3);
    lemma_mul_is_distributive_add(t4, qq0, s1);
    lemma_mul_is_distributive_add(t4, qq1, s2);
    lemma_mul_is_distributive_add(t4, qq2, s3);
    lemma_mul_is_distributive_add(t5, qq0, s1);
    lemma_mul_is_distributive_add(t5, qq1, s2);
    lemma_mul_is_distributive_add(t5, qq2, s3);
    lemma_mul_is_distributive_add(t6, qq0, s1);
    lemma_mul_is_distributive_add(t6, qq1, s2);
    lemma_mul_is_distributive_add(t6, qq2, s3);
    lemma_mul_is_distributive_add(t7, qq0, s1);
    lemma_mul_is_distributive_add(t7, qq1, s2);
    lemma_mul_is_distributive_add(t7, qq2, s3);
    lemma_mul_is_distributive_add(t8, qq0, s1);
    lemma_mul_is_distributive_add(t8, qq1, s2);
    lemma_mul_is_distributive_add(t8, qq2, s3);
    lemma_mul_is_distributive_add(t9, qq0, s1);
    lemma_mul_is_distributive_add(t9, qq1, s2);
    lemma_mul_is_distributive_add(t9, qq2, s3);
    lemma_mul_is_distributive_add(t10, qq0, s1);
    lemma_mul_is_distributive_add(t10, qq1, s2);
    lemma_mul_is_distributive_add(t10, qq2, s3);
    lemma_mul_is_distributive_add(t11, qq0, s1);
    lemma_mul_is_distributive_add(t11, qq1, s2);
    lemma_mul_is_distributive_add(t11, qq2, s3);
    lemma_mul_is_distributive_add(t12, qq0, s1);
    lemma_mul_is_distributive_add(t12, qq1, s2);
    lemma_mul_is_distributive_add(t12, qq2, s3);
    lemma_mul_is_distributive_add(t13, qq0, s1);
    lemma_mul_is_distributive_add(t13, qq1, s2);
    lemma_mul_is_distributive_add(t13, qq2, s3);
    lemma_mul_is_distributive_add(t14, qq0, s1);
    lemma_mul_is_distributive_add(t14, qq1, s2);
    lemma_mul_is_distributive_add(t14, qq2, s3);
    lemma_mul_is_distributive_add(t15, qq0, s1);
    lemma_mul_is_distributive_add(t15, qq1, s2);
    lemma_mul_is_distributive_add(t15, qq2, s3);
    lemma_mul_is_distributive_add(t16, qq0, s1);
    lemma_mul_is_distributive_add(t16, qq1, s2);
    lemma_mul_is_distributive_add(t16, qq2, s3);
    lemma_mul_is_distributive_add(t17, qq0, s1);
    lemma_mul_is_distributive_add(t17, qq1, s2);
    lemma_mul_is_distributive_add(t17, qq2, s3);
    lemma_mul_is_distributive_add(t18, qq0, s1);
    lemma_mul_is_distributive_add(t18, qq1, s2);
    lemma_mul_is_distributive_add(t18, qq2, s3);
    lemma_mul_is_distributive_add(t19, qq0, s1);
    lemma_mul_is_distributive_add(t19, qq1, s2);
    lemma_mul_is_distributive_add(t19, qq2, s3);
    lemma_mul_is_distributive_add(t20, qq0, s1);
    lemma_mul_is_distributive_add(t20, qq1, s2);
    lemma_mul_is_distributive_add(t20, qq2, s3);
    lemma_mul_is_distributive_add(t21, qq0, s1);
    lemma_mul_is_distributive_add(t21, qq1, s2);
    lemma_mul_is_distributive_add(t21, qq2, s3);
    lemma_mul_is_distributive_add(t22, qq0, s1);
    lemma_mul_is_distributive_add(t22, qq1, s2);
    lemma_mul_is_distributive_add(t22, qq2, s3);
    lemma_mul_is_distributive_add(t23, qq0, s1);
    lemma_mul_is_distributive_add(t23, qq1, s2);
    lemma_mul_is_distributive_add(t23, qq2, s3);
    lemma_mul_is_distributive_add(t24, qq0, s1);
    lemma_mul_is_distributive_add(t24, qq1, s2);
    lemma_mul_is_distributive_add(t24, qq2, s3);
    lemma_mul_is_distributive_add(t25, qq0, s1);
    lemma_mul_is_distributive_add(t25, qq1, s2);
    lemma_mul_is_distributive_add(t25, qq2, s3);
    lemma_mul_is_distributive_add(t26, qq0, s1);
    lemma_mul_is_distributive_add(t26, qq1, s2);
    lemma_mul_is_distributive_add(t26, qq2, s3);
    lemma_mul_is_distributive_add(t27, qq0, s1);
    lemma_mul_is_distributive_add(t27, qq1, s2);
    lemma_mul_is_distributive_add(t27, qq2, s3);
    lemma_mul_is_distributive_add(t28, qq0, s1);
    lemma_mul_is_distributive_add(t28, qq1, s2);
    lemma_mul_is_distributive_add(t28, qq2, s3);
    lemma_mul_is_distributive_add(t29, qq0, s1);
    lemma_mul_is_distributive_add(t29, qq1, s2);
    lemma_mul_is_distributive_add(t29, qq2, s3);
    lemma_mul_is_distributive_add(t30, qq0, s1);
    lemma_mul_is_distributive_add(t30, qq1, s2);
    lemma_mul_is_distributive_add(t30, qq2, s3);
    lemma_mul_is_distributive_add(t31, qq0, s1);
    lemma_mul_is_distributive_add(t31, qq1, s2);
    lemma_mul_is_distributive_add(t31, qq2, s3);
    lemma_tm(p, 486, 2, 0, 1, 0, 1, 5, 0, -1, 3, 0, 0, 0, 0, 0, 0);
    assert(t0 * s0 == (-486) * mn(p, 5, 0, 1, 0, 1, 5, 0));
    lemma_tm(p, 486, 2, 0, 1, 0, 1, 5, 0, 3, 1, 0, 2, 0, 0, 0, 0);
    assert(t0 * s1 == (1458) * mn(p, 3, 0, 3, 0, 1, 5, 0));
    lemma_tm(p, 486, 2, 0, 1, 0, 1, 5, 0, 1, 0, 2, 1, 0, 0, 0, 0);
    assert(t0 * s2 == (486) * mn(p, 2, 2, 2, 0, 1, 5, 0));
    lemma_tm(p, 486, 2, 0, 1, 0, 1, 5, 0, -1, 0, 0, 3, 0, 0, 0, 1);
    assert(t0 * s3 == (-486) * mn(p, 2, 0, 4, 0, 1, 5, 1));
    assert(t0 * q == (-486) * mn(p, 5, 0, 1, 0, 1, 5, 0) + (1458) * mn(p, 3, 0, 3, 0, 1, 5, 0) + (486) * mn(p, 2, 2, 2, 0, 1, 5, 0) + (-486) * mn(p, 2, 0, 4, 0, 1, 5, 1));
    lemma_tm(p, 81, 1, 2, 0, 5, 1, 0, 1, -1, 3, 0, 0, 0, 0, 0, 0);
    assert(t1 * s0 == (-81) * mn(p, 4, 2, 0, 5, 1, 0, 1));
    lemma_tm(p, 81, 1, 2, 0, 5, 1, 0, 1, 3, 1, 0, 2, 0, 0, 0, 0);
    assert(t1 * s1 == (243) * mn(p, 2, 2, 2, 5, 1, 0, 1));
    lemma_tm(p, 81, 1, 2, 0, 5, 1, 0, 1, 1, 0, 2, 1, 0, 0, 0, 0);
    assert(t1 * s2 == (81) * mn(p, 1, 4, 1, 5, 1, 0, 1));
    lemma_tm(p, 81, 1, 2, 0, 5, 1, 0, 1, -1, 0, 0, 3, 0, 0, 0, 1);
    assert(t1 * s3 == (-81) * mn(p, 1, 2, 3, 5, 1, 0, 2));
    assert(t1 * q == (-81) * mn(p, 4, 2, 0, 5, 1, 0, 1) + (243) * mn(p, 2, 2, 2, 5, 1, 0, 1) + (81) * mn(p, 1, 4, 1, 5, 1, 0, 1) + (-81) * mn(p, 1, 2, 3, 5, 1, 0, 2));
    lemma_tm(p, -486, 1, 2, 0, 4, 1, 1, 0, -1, 3, 0, 0, 0, 0, 0, 0);
    assert(t2 * s0 == (486) * mn(p, 4, 2, 0, 4, 1, 1, 0));
    lemma_tm(p, -486, 1, 2, 0, 4, 1, 1, 0, 3, 1, 0, 2, 0, 0, 0, 0);
    assert(t2 * s1 == (-1458) * mn(p, 2, 2, 2, 4, 1, 1, 0));
    lemma_tm(p, -486, 1, 2, 0, 4, 1, 1, 0, 1, 0, 2, 1, 0, 0, 0, 0);
    assert(t2 * s2 == (-486) * mn(p, 1, 4, 1, 4, 1, 1, 0));
    lemma_tm(p, -486, 1, 2, 0, 4, 1, 1, 0, -1, 0, 0, 3, 0, 0, 0, 1);
    assert(t2 * s3 == (486) * mn(p, 1, 2, 3, 4, 1, 1, 1));
    assert(t2 * q == (486) * mn(p, 4, 2, 0, 4, 1, 1, 0) + (-1458) * mn(p, 2, 2, 2, 4, 1, 1, 0) + (-486) * mn(p, 1, 4, 1, 4, 1, 1, 0) + (486) * mn(p, 1, 2, 3, 4, 1, 1, 1));
    lemma_tm(p, -27, 1, 2, 0, 3, 3, 0, 0, -1, 3, 0, 0, 0, 0, 0, 0);
    assert(t3 * s0 == (27) * mn(p, 4, 2, 0, 3, 3, 0, 0));
    lemma_tm(p, -27, 1, 2, 0, 3, 3, 0, 0, 3, 1, 0, 2, 0, 0, 0, 0);
    assert(t3 * s1 == (-81) * mn(p, 2, 2, 2, 3, 3, 0, 0));
    lemma_tm(p, -27, 1, 2, 0, 3, 3, 0, 0, 1, 0, 2, 1, 0, 0, 0, 0);
    assert(t3 * s2 == (-27) * mn(p, 1, 4, 1, 3, 3, 0, 0));
    lemma_tm(p, -27, 1, 2, 0, 3, 3, 0, 0, -1, 0, 0, 3, 0, 0, 0, 1);
    assert(t3 * s3 == (27) * mn(p, 1, 2, 3, 3, 3, 0, 1));
    assert(t3 * q == (27) * mn(p, 4, 2, 0, 3, 3, 0, 0) + (-81) * mn(p, 2, 2, 2, 3, 3, 0, 0) + (-27) * mn(p, 1, 4, 1, 3, 3, 0, 0) + (27) * mn(p, 1, 2, 3, 3, 3, 0, 1));
    lemma_tm(p, 162, 1, 2, 0, 3, 1, 2, 1, -1, 3, 0, 0, 0, 0, 0, 0);
    assert(t4 * s0 == (-162) * mn(p, 4, 2, 0, 3, 1, 2, 1));
    lemma_tm(p, 162, 1, 2, 0, 3, 1, 2, 1, 3, 1, 0, 2, 0, 0, 0, 0);
    assert(t4 * s1 == (486) * mn(p, 2, 2, 2, 3, 1, 2, 1));
    lemma_tm(p, 162, 1, 2, 0, 3, 1, 2, 1, 1, 0, 2, 1, 0, 0, 0, 0);
    assert(t4 * s2 == (162) * mn(p, 1, 4, 1, 3, 1, 2, 1));
    lemma_tm(p, 162, 1, 2, 0, 3, 1, 2, 1, -1, 0, 0, 3, 0, 0, 0, 1);
    assert(t4 * s3 == (-162) * mn(p, 1, 2, 3, 3, 1, 2, 2));
    assert(t4 * q == (-162) * mn(p, 4, 2, 0, 3, 1, 2, 1) + (486) * mn(p, 2, 2, 2, 3, 1, 2, 1) + (162) * mn(p, 1, 4, 1, 3, 1, 2, 1) + (-162) * mn(p, 1, 2, 3, 3, 1, 2, 2));
    lemma_tm(p, -27, 1, 2, 0, 2, 3, 1, 1, -1, 3, 0, 0, 0, 0, 0, 0);
    assert(t5 * s0 == (27) * mn(p, 4, 2, 0, 2, 3, 1, 1));
    lemma_tm(p, -27, 1, 2, 0, 2, 3, 1, 1, 3, 1, 0, 2, 0, 0, 0, 0);
    assert(t5 * s1 == (-81) * mn(p, 2, 2, 2, 2, 3, 1, 1));
    lemma_tm(p, -27, 1, 2, 0, 2, 3, 1, 1, 1, 0, 2, 1, 0, 0, 0, 0);
    assert(t5 * s2 == (-27) * mn(p, 1, 4, 1, 2, 3, 1, 1));
    lemma_tm(p, -27, 1, 2, 0, 2, 3, 1, 1, -1, 0, 0, 3, 0, 0, 0, 1);
    assert(t5 * s3 == (27) * mn(p, 1, 2, 3, 2, 3, 1, 2));
    assert(t5 * q == (27) * mn(p, 4, 2, 0, 2, 3, 1, 1) + (-81) * mn(p, 2, 2, 2, 2, 3, 1, 1) + (-27) * mn(p, 1, 4, 1, 2, 3, 1, 1) + (27) * mn(p, 1, 2, 3, 2, 3, 1, 2));
    lemma_tm(p, -81, 1, 2, 0, 2, 1, 3, 2, -1, 3, 0, 0, 0, 0, 0, 0);
    assert(t6 * s0 == (81) * mn(p, 4, 2, 0, 2, 1, 3, 2));
    lemma_tm(p, -81, 1, 2, 0, 2, 1, 3, 2, 3, 1, 0, 2, 0, 0, 0, 0);
    assert(t6 * s1 == (-243) * mn(p, 2, 2, 2, 2, 1, 3, 2));
    lemma_tm(p, -81, 1, 2, 0, 2, 1, 3, 2, 1, 0, 2, 1, 0, 0, 0, 0);
    assert(t6 * s2 == (-81) * mn(p, 1, 4, 1, 2, 1, 3, 2));
    lemma_tm(p, -81, 1, 2, 0, 2, 1, 3, 2, -1, 0, 0, 3, 0, 0, 0, 1);
    assert(t6 * s3 == (81) * mn(p, 1, 2, 3, 2, 1, 3, 3));
    assert(t6 * q == (81) * mn(p, 4, 2, 0, 2, 1, 3, 2) + (-243) * mn(p, 2, 2, 2, 2, 1, 3, 2) + (-81) * mn(p, 1, 4, 1, 2, 1, 3, 2) + (81) * mn(p, 1, 2, 3, 2, 1, 3, 3));
    lemma_tm(p, 648, 1, 2, 0, 2, 1, 3, 0, -1, 3, 0, 0, 0, 0, 0, 0);
    assert(t7 * s0 == (-648) * mn(p, 4, 2, 0, 2, 1, 3, 0));
    lemma_tm(p, 648, 1, 2, 0, 2, 1, 3, 0, 3, 1, 0, 2, 0, 0, 0, 0);
    assert(t7 * s1 == (1944) * mn(p, 2, 2, 2, 2, 1, 3, 0));
    lemma_tm(p, 648, 1, 2, 0, 2, 1, 3, 0, 1, 0, 2, 1, 0, 0, 0, 0);
    assert(t7 * s2 == (648) * mn(p, 1, 4, 1, 2, 1, 3, 0));
    lemma_tm(p, 648, 1, 2, 0, 2, 1, 3, 0, -1, 0, 0, 3, 0, 0, 0, 1);
    assert(t7 * s3 == (-648) * mn(p, 1, 2, 3, 2, 1, 3, 1));
    assert(t7 * q == (-648) * mn(p, 4, 2, 0, 2, 1, 3, 0) + (1944) * mn(p, 2, 2, 2, 2, 1, 3, 0) + (648) * mn(p, 1, 4, 1, 2, 1, 3, 0) + (-648) * mn(p, 1, 2, 3, 2, 1, 3, 1));
    lemma_tm(p, 189, 1, 2, 0, 1, 3, 2, 0, -1, 3, 0, 0, 0, 0, 0, 0);
    assert(t8 * s0 == (-189) * mn(p, 4, 2, 0, 1, 3, 2, 0));
    lemma_tm(p, 189, 1, 2, 0, 1, 3, 2, 0, 3, 1, 0, 2, 0, 0, 0, 0);
    assert(t8 * s1 == (567) * mn(p, 2, 2, 2, 1, 3, 2, 0));
    lemma_tm(p, 189, 1, 2, 0, 1, 3, 2, 0, 1, 0, 2, 1, 0, 0, 0, 0);
    assert(t8 * s2 == (189) * mn(p, 1, 4, 1, 1, 3, 2, 0));
    lemma_tm(p, 189, 1, 2, 0, 1, 3, 2, 0, -1, 0, 0, 3, 0, 0, 0, 1);
    assert(t8 * s3 == (-189) * mn(p, 1, 2, 3, 1, 3, 2, 1));
    assert(t8 * q == (-189) * mn(p, 4, 2, 0, 1, 3, 2, 0) + (567) * mn(p, 2, 2, 2, 1, 3, 2, 0) + (189) * mn(p, 1, 4, 1, 1, 3, 2, 0) + (-189) * mn(p, 1, 2, 3, 1, 3, 2, 1));
    lemma_tm(p, -243, 1, 2, 0, 1, 1, 4, 1, -1, 3, 0, 0, 0, 0, 0, 0);
    assert(t9 * s0 == (243) * mn(p, 4, 2, 0, 1, 1, 4, 1));
    lemma_tm(p, -243, 1, 2, 0, 1, 1, 4, 1, 3, 1, 0, 2, 0, 0, 0, 0);
    assert(t9 * s1 == (-729) * mn(p, 2, 2, 2, 1, 1, 4, 1));
    lemma_tm(p, -243, 1, 2, 0, 1, 1, 4, 1, 1, 0, 2, 1, 0, 0, 0, 0);
    assert(t9 * s2 == (-243) * mn(p, 1, 4, 1, 1, 1, 4, 1));
    lemma_tm(p, -243, 1, 2, 0, 1, 1, 4, 1, -1, 0, 0, 3, 0, 0, 0, 1);
    assert(t9 * s3 == (243) * mn(p, 1, 2, 3, 1, 1, 4, 2));
    assert(t9 * q == (243) * mn(p, 4, 2, 0, 1, 1, 4, 1) + (-729) * mn(p, 2, 2, 2, 1, 1, 4, 1) + (-243) * mn(p, 1, 4, 1, 1, 1, 4, 1) + (243) * mn(p, 1, 2, 3, 1, 1, 4, 2));
    lemma_tm(p, 9, 1, 2, 0, 0, 5, 1, 0, -1, 3, 0, 0, 0, 0, 0, 0);
    assert(t10 * s0 == (-9) * mn(p, 4, 2, 0, 0, 5, 1, 0));
    lemma_tm(p, 9, 1, 2, 0, 0, 5, 1, 0, 3, 1, 0, 2, 0, 0, 0, 0);
    assert(t10 * s1 == (27) * mn(p, 2, 2, 2, 0, 5, 1, 0));
    lemma_tm(p, 9, 1, 2, 0, 0, 5, 1, 0, 1, 0, 2, 1, 0, 0, 0, 0);
    assert(t10 * s2 == (9) * mn(p, 1, 4, 1, 0, 5, 1, 0));
    lemma_tm(p, 9, 1, 2, 0, 0, 5, 1, 0, -1, 0, 0, 3, 0, 0, 0, 1);
    assert(t10 * s3 == (-9) * mn(p, 1, 2, 3, 0, 5, 1, 1));
    assert(t10 * q == (-9) * mn(p, 4, 2, 0, 0, 5, 1, 0) + (27) * mn(p, 2, 2, 2, 0, 5, 1, 0) + (9) * mn(p, 1, 4, 1, 0, 5, 1, 0) + (-9) * mn(p, 1, 2, 3, 0, 5, 1, 1));
    lemma_tm(p, -54, 1, 2, 0, 0, 3, 3, 1, -1, 3, 0, 0, 0, 0, 0, 0);
    assert(t11 * s0 == (54) * mn(p, 4, 2, 0, 0, 3, 3, 1));
    lemma_tm(p, -54, 1, 2, 0, 0, 3, 3, 1, 3, 1, 0, 2, 0, 0, 0, 0);
    assert(t11 * s1 == (-162) * mn(p, 2, 2, 2, 0, 3, 3, 1));
    lemma_tm(p, -54, 1, 2, 0, 0, 3, 3, 1, 1, 0, 2, 1, 0, 0, 0, 0);
    assert(t11 * s2 == (-54) * mn(p, 1, 4, 1, 0, 3, 3, 1));
    lemma_tm(p, -54, 1, 2, 0, 0, 3, 3, 1, -1, 0, 0, 3, 0, 0, 0, 1);
    assert(t11 * s3 == (54) * mn(p, 1, 2, 3, 0, 3, 3, 2));
    assert(t11 * q == (54) * mn(p, 4, 2, 0, 0, 3, 3, 1) + (-162) * mn(p, 2, 2, 2, 0, 3, 3, 1) + (-54) * mn(p, 1, 4, 1, 0, 3, 3, 1) + (54) * mn(p, 1, 2, 3, 0, 3, 3, 2));
    lemma_tm(p, 81, 1, 2, 0, 0, 1, 5, 2, -1, 3, 0, 0, 0, 0, 0, 0);
    assert(t12 * s0 == (-81) * mn(p, 4, 2, 0, 0, 1, 5, 2));
    lemma_tm(p, 81, 1, 2, 0, 0, 1, 5, 2, 3, 1, 0, 2, 0, 0, 0, 0);
    assert(t12 * s1 == (243) * mn(p, 2, 2, 2, 0, 1, 5, 2));
    lemma_tm(p, 81, 1, 2, 0, 0, 1, 5, 2, 1, 0, 2, 1, 0, 0, 0, 0);
    assert(t12 * s2 == (81) * mn(p, 1, 4, 1, 0, 1, 5, 2));
    lemma_tm(p, 81, 1, 2, 0, 0, 1, 5, 2, -1, 0, 0, 3, 0, 0, 0, 1);
    assert(t12 * s3 == (-81) * mn(p, 1, 2, 3, 0, 1, 5, 3));
    assert(t12 * q == (-81) * mn(p, 4, 2, 0, 0, 1, 5, 2) + (243) * mn(p, 2, 2, 2, 0, 1, 5, 2) + (81) * mn(p, 1, 4, 1, 0, 1, 5, 2) + (-81) * mn(p, 1, 2, 3, 0, 1, 5, 3));
    lemma_tm(p, -162, 1, 2, 0, 0, 1, 5, 0, -1, 3, 0, 0, 0, 0, 0, 0);
    assert(t13 * s0 == (162) * mn(p, 4, 2, 0, 0, 1, 5, 0));
    lemma_tm(p, -162, 1, 2, 0, 0, 1, 5, 0, 3, 1, 0, 2, 0, 0, 0, 0);
    assert(t13 * s1 == (-486) * mn(p, 2, 2, 2, 0, 1, 5, 0));
    lemma_tm(p, -162, 1, 2, 0, 0, 1, 5, 0, 1, 0, 2, 1, 0, 0, 0, 0);
    assert(t13 * s2 == (-162) * mn(p, 1, 4, 1, 0, 1, 5, 0));
    lemma_tm(p, -162, 1, 2, 0, 0, 1, 5, 0, -1, 0, 0, 3, 0, 0, 0, 1);
    assert(t13 * s3 == (162) * mn(p, 1, 2, 3, 0, 1, 5, 1));
    assert(t13 * q == (162) * mn(p, 4, 2, 0, 0, 1, 5, 0) + (-486) * mn(p, 2, 2, 2, 0, 1, 5, 0) + (-162) * mn(p, 1, 4, 1, 0, 1, 5, 0) + (162) * mn(p, 1, 2, 3, 0, 1, 5, 1));
    lemma_tm(p, 486, 1, 1, 1, 6, 0, 0, 1, -1, 3, 0, 0, 0, 0, 0, 0);
    assert(t14 * s0 == (-486) * mn(p, 4, 1, 1, 6, 0, 0, 1));
    lemma_tm(p, 486, 1, 1, 1, 6, 0, 0, 1, 3, 1, 0, 2, 0, 0, 0, 0);
    assert(t14 * s1 == (1458) * mn(p, 2, 1, 3, 6, 0, 0, 1));
    lemma_tm(p, 486, 1, 1, 1, 6, 0, 0, 1, 1, 0, 2, 1, 0, 0, 0, 0);
    assert(t14 * s2 == (486) * mn(p, 1, 3, 2, 6, 0, 0, 1));
    lemma_tm(p, 486, 1, 1, 1, 6, 0, 0, 1, -1, 0, 0, 3, 0, 0, 0, 1);
    assert(t14 * s3 == (-486) * mn(p, 1, 1, 4, 6, 0, 0, 2));
    assert(t14 * q == (-486) * mn(p, 4, 1, 1, 6, 0, 0, 1) + (1458) * mn(p, 2, 1, 3, 6, 0, 0, 1) + (486) * mn(p, 1, 3, 2, 6, 0, 0, 1) + (-486) * mn(p, 1, 1, 4, 6, 0, 0, 2));
    lemma_tm(p, -486, 1, 1, 1, 5, 0, 1, 2, -1, 3, 0, 0, 0, 0, 0, 0);
    assert(t15 * s0 == (486) * mn(p, 4, 1, 1, 5, 0, 1, 2));
    lemma_tm(p, -486, 1, 1, 1, 5, 0, 1, 2, 3, 1, 0, 2, 0, 0, 0, 0);
    assert(t15 * s1 == (-1458) * mn(p, 2, 1, 3, 5, 0, 1, 2));
    lemma_tm(p, -486, 1, 1, 1, 5, 0, 1, 2, 1, 0, 2, 1, 0, 0, 0, 0);
    assert(t15 * s2 == (-486) * mn(p, 1, 3, 2, 5, 0, 1, 2));
    lemma_tm(p, -486, 1, 1, 1, 5, 0, 1, 2, -1, 0, 0, 3, 0, 0, 0, 1);
    assert(t15 * s3 == (486) * mn(p, 1, 1, 4, 5, 0, 1, 3));
    assert(t15 * q == (486) * mn(p, 4, 1, 1, 5, 0, 1, 2) + (-1458) * mn(p, 2, 1, 3, 5, 0, 1, 2) + (-486) * mn(p, 1, 3, 2, 5, 0, 1, 2) + (486) * mn(p, 1, 1, 4, 5, 0, 1, 3));
    lemma_tm(p, -1458, 1, 1, 1, 5, 0, 1, 0, -1, 3, 0, 0, 0, 0, 0, 0);
    assert(t16 * s0 == (1458) * mn(p, 4, 1, 1, 5, 0, 1, 0));
    lemma_tm(p, -1458, 1, 1, 1, 5, 0, 1, 0, 3, 1, 0, 2, 0, 0, 0, 0);
    assert(t16 * s1 == (-4374) * mn(p, 2, 1, 3, 5, 0, 1, 0));
    lemma_tm(p, -1458, 1, 1, 1, 5, 0, 1, 0, 1, 0, 2, 1, 0, 0, 0, 0);
    assert(t16 * s2 == (-1458) * mn(p, 1, 3, 2, 5, 0, 1, 0));
    lemma_tm(p, -1458, 1, 1, 1, 5, 0, 1, 0, -1, 0, 0, 3, 0, 0, 0, 1);
    assert(t16 * s3 == (1458) * mn(p, 1, 1, 4, 5, 0, 1, 1));
    assert(t16 * q == (1458) * mn(p, 4, 1, 1, 5, 0, 1, 0) + (-4374) * mn(p, 2, 1, 3, 5, 0, 1, 0) + (-1458) * mn(p, 1, 3, 2, 5, 0, 1, 0) + (1458) * mn(p, 1, 1, 4, 5, 0, 1, 1));
    lemma_tm(p, -486, 1, 1, 1, 4, 2, 0, 0, -1, 3, 0, 0, 0, 0, 0, 0);
    assert(t17 * s0 == (486) * mn(p, 4, 1, 1, 4, 2, 0, 0));
    lemma_tm(p, -486, 1, 1, 1, 4, 2, 0, 0, 3, 1, 0, 2, 0, 0, 0, 0);
    assert(t17 * s1 == (-1458) * mn(p, 2, 1, 3, 4, 2, 0, 0));
    lemma_tm(p, -486, 1, 1, 1, 4, 2, 0, 0, 1, 0, 2, 1, 0, 0, 0, 0);
    assert(t17 * s2 == (-486) * mn(p, 1, 3, 2, 4, 2, 0, 0));
    lemma_tm(p, -486, 1, 1, 1, 4, 2, 0, 0, -1, 0, 0, 3, 0, 0, 0, 1);
    assert(t17 * s3 == (486) * mn(p, 1, 1, 4, 4, 2, 0, 1));
    assert(t17 * q == (486) * mn(p, 4, 1, 1, 4, 2, 0, 0) + (-1458) * mn(p, 2, 1, 3, 4, 2, 0, 0) + (-486) * mn(p, 1, 3, 2, 4, 2, 0, 0) + (486) * mn(p, 1, 1, 4, 4, 2, 0, 1));
    lemma_tm(p, 1215, 1, 1, 1, 4, 0, 2, 1, -1, 3, 0, 0, 0, 0, 0, 0);
    assert(t18 * s0 == (-1215) * mn(p, 4, 1, 1, 4, 0, 2, 1));
    lemma_tm(p, 1215, 1, 1, 1, 4, 0, 2, 1, 3, 1, 0, 2, 0, 0, 0, 0);
    assert(t18 * s1 == (3645) * mn(p, 2, 1, 3, 4, 0, 2, 1));
    lemma_tm(p, 1215, 1, 1, 1, 4, 0, 2, 1, 1, 0, 2, 1, 0, 0, 0, 0);
    assert(t18 * s2 == (1215) * mn(p, 1, 3, 2, 4, 0, 2, 1));
    lemma_tm(p, 1215, 1, 1, 1, 4, 0, 2, 1, -1, 0, 0, 3, 0, 0, 0, 1);
    assert(t18 * s3 == (-1215) * mn(p, 1, 1, 4, 4, 0, 2, 2));
    assert(t18 * q == (-1215) * mn(p, 4, 1, 1, 4, 0, 2, 1) + (3645) * mn(p, 2, 1, 3, 4, 0, 2, 1) + (1215) * mn(p, 1, 3, 2, 4, 0, 2, 1) + (-1215) * mn(p, 1, 1, 4, 4, 0, 2, 2));
    lemma_tm(p, 162, 1, 1, 1, 3, 2, 1, 1, -1, 3, 0, 0, 0, 0, 0, 0);
    assert(t19 * s0 == (-162) * mn(p, 4, 1, 1, 3, 2, 1, 1));
    lemma_tm(p, 162, 1, 1, 1, 3, 2, 1, 1, 3, 1, 0, 2, 0, 0, 0, 0);
    assert(t19 * s1 == (486) * mn(p, 2, 1, 3, 3, 2, 1, 1));
    lemma_tm(p, 162, 1, 1, 1, 3, 2, 1, 1, 1, 0, 2, 1, 0, 0, 0, 0);
    assert(t19 * s2 == (162) * mn(p, 1, 3, 2, 3, 2, 1, 1));
    lemma_tm(p, 162, 1, 1, 1, 3, 2, 1, 1, -1, 0, 0, 3, 0, 0, 0, 1);
    assert(t19 * s3 == (-162) * mn(p, 1, 1, 4, 3, 2, 1, 2));
    assert(t19 * q == (-162) * mn(p, 4, 1, 1, 3, 2, 1, 1) + (486) * mn(p, 2, 1, 3, 3, 2, 1, 1) + (162) * mn(p, 1, 3, 2, 3, 2, 1, 1) + (-162) * mn(p, 1, 1, 4, 3, 2, 1, 2));
    lemma_tm(p, 972, 1, 1, 1, 3, 0, 3, 2, -1, 3, 0, 0, 0, 0, 0, 0);
    assert(t20 * s0 == (-972) * mn(p, 4, 1, 1, 3, 0, 3, 2));
    lemma_tm(p, 972, 1, 1, 1, 3, 0, 3, 2, 3, 1, 0, 2, 0, 0, 0, 0);
    assert(t20 * s1 == (2916) * mn(p, 2, 1, 3, 3, 0, 3, 2));
    lemma_tm(p, 972, 1, 1, 1, 3, 0, 3, 2, 1, 0, 2, 1, 0, 0, 0, 0);
    assert(t20 * s2 == (972) * mn(p, 1, 3, 2, 3, 0, 3, 2));
    lemma_tm(p, 972, 1, 1, 1, 3, 0, 3, 2, -1, 0, 0, 3, 0, 0, 0, 1);
    assert(t20 * s3 == (-972) * mn(p, 1, 1, 4, 3, 0, 3, 3));
    assert(t20 * q == (-972) * mn(p, 4, 1, 1, 3, 0, 3, 2) + (2916) * mn(p, 2, 1, 3, 3, 0, 3, 2) + (972) * mn(p, 1, 3, 2, 3, 0, 3, 2) + (-972) * mn(p, 1, 1, 4, 3, 0, 3, 3));
    lemma_tm(p, 972, 1, 1, 1, 3, 0, 3, 0, -1, 3, 0, 0, 0, 0, 0, 0);
    assert(t21 * s0 == (-972) * mn(p, 4, 1, 1, 3, 0, 3, 0));
    lemma_tm(p, 972, 1, 1, 1, 3, 0, 3, 0, 3, 1, 0, 2, 0, 0, 0, 0);
    assert(t21 * s1 == (2916) * mn(p, 2, 1, 3, 3, 0, 3, 0));
    lemma_tm(p, 972, 1, 1, 1, 3, 0, 3, 0, 1, 0, 2, 1, 0, 0, 0, 0);
    assert(t21 * s2 == (972) * mn(p, 1, 3, 2, 3, 0, 3, 0));
    lemma_tm(p, 972, 1, 1, 1, 3, 0, 3, 0, -1, 0, 0, 3, 0, 0, 0, 1);
    assert(t21 * s3 == (-972) * mn(p, 1, 1, 4, 3, 0, 3, 1));
    assert(t21 * q == (-972) * mn(p, 4, 1, 1, 3, 0, 3, 0) + (2916) * mn(p, 2, 1, 3, 3, 0, 3, 0) + (972) * mn(p, 1, 3, 2, 3, 0, 3, 0) + (-972) * mn(p, 1, 1, 4, 3, 0, 3, 1));
    lemma_tm(p, 27, 1, 1, 1, 2, 4, 0, 1, -1, 3, 0, 0, 0, 0, 0, 0);
    assert(t22 * s0 == (-27) * mn(p, 4, 1, 1, 2, 4, 0, 1));
    lemma_tm(p, 27, 1, 1, 1, 2, 4, 0, 1, 3, 1, 0, 2, 0, 0, 0, 0);
    assert(t22 * s1 == (81) * mn(p, 2, 1, 3, 2, 4, 0, 1));
    lemma_tm(p, 27, 1, 1, 1, 2, 4, 0, 1, 1, 0, 2, 1, 0, 0, 0, 0);
    assert(t22 * s2 == (27) * mn(p, 1, 3, 2, 2, 4, 0, 1));
    lemma_tm(p, 27, 1, 1, 1, 2, 4, 0, 1, -1, 0, 0, 3, 0, 0, 0, 1);
    assert(t22 * s3 == (-27) * mn(p, 1, 1, 4, 2, 4, 0, 2));
    assert(t22 * q == (-27) * mn(p, 4, 1, 1, 2, 4, 0, 1) + (81) * mn(p, 2, 1, 3, 2, 4, 0, 1) + (27) * mn(p, 1, 3, 2, 2, 4, 0, 1) + (-27) * mn(p, 1, 1, 4, 2, 4, 0, 2));
    lemma_tm(p, 1944, 1, 1, 1, 2, 2, 2, 0, -1, 3, 0, 0, 0, 0, 0, 0);
    assert(t23 * s0 == (-1944) * mn(p, 4, 1, 1, 2, 2, 2, 0));
    lemma_tm(p, 1944, 1, 1, 1, 2, 2, 2, 0, 3, 1, 0, 2, 0, 0, 0, 0);
    assert(t23 * s1 == (5832) * mn(p, 2, 1, 3, 2, 2, 2, 0));
    lemma_tm(p, 1944, 1, 1, 1, 2, 2, 2, 0, 1, 0, 2, 1, 0, 0, 0, 0);
    assert(t23 * s2 == (1944) * mn(p, 1, 3, 2, 2, 2, 2, 0));
    lemma_tm(p, 1944, 1, 1, 1, 2, 2, 2, 0, -1, 0, 0, 3, 0, 0, 0, 1);
    assert(t23 * s3 == (-1944) * mn(p, 1, 1, 4, 2, 2, 2, 1));
    assert(t23 * q == (-1944) * mn(p, 4, 1, 1, 2, 2, 2, 0) + (5832) * mn(p, 2, 1, 3, 2, 2, 2, 0) + (1944) * mn(p, 1, 3, 2, 2, 2, 2, 0) + (-1944) * mn(p, 1, 1, 4, 2, 2, 2, 1));
    lemma_tm(p, -243, 1, 1, 1, 2, 0, 4, 3, -1, 3, 0, 0, 0, 0, 0, 0);
    assert(t24 * s0 == (243) * mn(p, 4, 1, 1, 2, 0, 4, 3));
    lemma_tm(p, -243, 1, 1, 1, 2, 0, 4, 3, 3, 1, 0, 2, 0, 0, 0, 0);
    assert(t24 * s1 == (-729) * mn(p, 2, 1, 3, 2, 0, 4, 3));
    lemma_tm(p, -243, 1, 1, 1, 2, 0, 4, 3, 1, 0, 2, 1, 0, 0, 0, 0);
    assert(t24 * s2 == (-243) * mn(p, 1, 3, 2, 2, 0, 4, 3));
    lemma_tm(p, -243, 1, 1, 1, 2, 0, 4, 3, -1, 0, 0, 3, 0, 0, 0, 1);
    assert(t24 * s3 == (243) * mn(p, 1, 1, 4, 2, 0, 4, 4));
    assert(t24 * q == (243) * mn(p, 4, 1, 1, 2, 0, 4, 3) + (-729) * mn(p, 2, 1, 3, 2, 0, 4, 3) + (-243) * mn(p, 1, 3, 2, 2, 0, 4, 3) + (243) * mn(p, 1, 1, 4, 2, 0, 4, 4));
    lemma_tm(p, -3888, 1, 1, 1, 2, 0, 4, 1, -1, 3, 0, 0, 0, 0, 0, 0);
    assert(t25 * s0 == (3888) * mn(p, 4, 1, 1, 2, 0, 4, 1));
    lemma_tm(p, -3888, 1, 1, 1, 2, 0, 4, 1, 3, 1, 0, 2, 0, 0, 0, 0);
    assert(t25 * s1 == (-11664) * mn(p, 2, 1, 3, 2, 0, 4, 1));
    lemma_tm(p, -3888, 1, 1, 1, 2, 0, 4, 1, 1, 0, 2, 1, 0, 0, 0, 0);
    assert(t25 * s2 == (-3888) * mn(p, 1, 3, 2, 2, 0, 4, 1));
    lemma_tm(p, -3888, 1, 1, 1, 2, 0, 4, 1, -1, 0, 0, 3, 0, 0, 0, 1);
    assert(t25 * s3 == (3888) * mn(p, 1, 1, 4, 2, 0, 4, 2));
    assert(t25 * q == (3888) * mn(p, 4, 1, 1, 2, 0, 4, 1) + (-11664) * mn(p, 2, 1, 3, 2, 0, 4, 1) + (-3888) * mn(p, 1, 3, 2, 2, 0, 4, 1) + (3888) * mn(p, 1, 1, 4, 2, 0, 4, 2));
    lemma_tm(p, 162, 1, 1, 1, 1, 4, 1, 0, -1, 3, 0, 0, 0, 0, 0, 0);
    assert(t26 * s0 == (-162) * mn(p, 4, 1, 1, 1, 4, 1, 0));
    lemma_tm(p, 162, 1, 1, 1, 1, 4, 1, 0, 3, 1, 0, 2, 0, 0, 0, 0);
    assert(t26 * s1 == (486) * mn(p, 2, 1, 3, 1, 4, 1, 0));
    lemma_tm(p, 162, 1, 1, 1, 1, 4, 1, 0, 1, 0, 2, 1, 0, 0, 0, 0);
    assert(t26 * s2 == (162) * mn(p, 1, 3, 2, 1, 4, 1, 0));
    lemma_tm(p, 162, 1, 1, 1, 1, 4, 1, 0, -1, 0, 0, 3, 0, 0, 0, 1);
    assert(t26 * s3 == (-162) * mn(p, 1, 1, 4, 1, 4, 1, 1));
    assert(t26 * q == (-162) * mn(p, 4, 1, 1, 1, 4, 1, 0) + (486) * mn(p, 2, 1, 3, 1, 4, 1, 0) + (162) * mn(p, 1, 3, 2, 1, 4, 1, 0) + (-162) * mn(p, 1, 1, 4, 1, 4, 1, 1));
    lemma_tm(p, -1458, 1, 1, 1, 1, 2, 3, 1, -1, 3, 0, 0, 0, 0, 0, 0);
    assert(t27 * s0 == (1458) * mn(p, 4, 1, 1, 1, 2, 3, 1));
    lemma_tm(p, -1458, 1, 1, 1, 1, 2, 3, 1, 3, 1, 0, 2, 0, 0, 0, 0);
    assert(t27 * s1 == (-4374) * mn(p, 2, 1, 3, 1, 2, 3, 1));
    lemma_tm(p, -1458, 1, 1, 1, 1, 2, 3, 1, 1, 0, 2, 1, 0, 0, 0, 0);
    assert(t27 * s2 == (-1458) * mn(p, 1, 3, 2, 1, 2, 3, 1));
    lemma_tm(p, -1458, 1, 1, 1, 1, 2, 3, 1, -1, 0, 0, 3, 0, 0, 0, 1);
    assert(t27 * s3 == (1458) * mn(p, 1, 1, 4, 1, 2, 3, 2));
    assert(t27 * q == (1458) * mn(p, 4, 1, 1, 1, 2, 3, 1) + (-4374) * mn(p, 2, 1, 3, 1, 2, 3, 1) + (-1458) * mn(p, 1, 3, 2, 1, 2, 3, 1) + (1458) * mn(p, 1, 1, 4, 1, 2, 3, 2));
    lemma_tm(p, 972, 1, 1, 1, 1, 0, 5, 2, -1, 3, 0, 0, 0, 0, 0, 0);
    assert(t28 * s0 == (-972) * mn(p, 4, 1, 1, 1, 0, 5, 2));
    lemma_tm(p, 972, 1, 1, 1, 1, 0, 5, 2, 3, 1, 0, 2, 0, 0, 0, 0);
    assert(t28 * s1 == (2916) * mn(p, 2, 1, 3, 1, 0, 5, 2));
    lemma_tm(p, 972, 1, 1, 1, 1, 0, 5, 2, 1, 0, 2, 1, 0, 0, 0, 0);
    assert(t28 * s2 == (972) * mn(p, 1, 3, 2, 1, 0, 5, 2));
    lemma_tm(p, 972, 1, 1, 1, 1, 0, 5, 2, -1, 0, 0, 3, 0, 0, 0, 1);
    assert(t28 * s3 == (-972) * mn(p, 1, 1, 4, 1, 0, 5, 3));
    assert(t28 * q == (-972) * mn(p, 4, 1, 1, 1, 0, 5, 2) + (2916) * mn(p, 2, 1, 3, 1, 0, 5, 2) + (972) * mn(p, 1, 3, 2, 1, 0, 5, 2) + (-972) * mn(p, 1, 1, 4, 1, 0, 5, 3));
    lemma_tm(p, 2430, 1, 1, 1, 1, 0, 5, 0, -1, 3, 0, 0, 0, 0, 0, 0);
    assert(t29 * s0 == (-2430) * mn(p, 4, 1, 1, 1, 0, 5, 0));
    lemma_tm(p, 2430, 1, 1, 1, 1, 0, 5, 0, 3, 1, 0, 2, 0, 0, 0, 0);
    assert(t29 * s1 == (7290) * mn(p, 2, 1, 3, 1, 0, 5, 0));
    lemma_tm(p, 2430, 1, 1, 1, 1, 0, 5, 0, 1, 0, 2, 1, 0, 0, 0, 0);
    assert(t29 * s2 == (2430) * mn(p, 1, 3, 2, 1, 0, 5, 0));
    lemma_tm(p, 2430, 1, 1, 1, 1, 0, 5, 0, -1, 0, 0, 3, 0, 0, 0, 1);
    assert(t29 * s3 == (-2430) * mn(p, 1, 1, 4, 1, 0, 5, 1));
    assert(t29 * q == (-2430) * mn(p, 4, 1, 1, 1, 0, 5, 0) + (7290) * mn(p, 2, 1, 3, 1, 0, 5, 0) + (2430) * mn(p, 1, 3, 2, 1, 0, 5, 0) + (-2430) * mn(p, 1, 1, 4, 1, 0, 5, 1));
    lemma_tm(p, -108, 1, 1, 1, 0, 4, 2, 1, -1, 3, 0, 0, 0, 0, 0, 0);
    assert(t30 * s0 == (108) * mn(p, 4, 1, 1, 0, 4, 2, 1));
    lemma_tm(p, -108, 1, 1, 1, 0, 4, 2, 1, 3, 1, 0, 2, 0, 0, 0, 0);
    assert(t30 * s1 == (-324) * mn(p, 2, 1, 3, 0, 4, 2, 1));
    lemma_tm(p, -108, 1, 1, 1, 0, 4, 2, 1, 1, 0, 2, 1, 0, 0, 0, 0);
    assert(t30 * s2 == (-108) * mn(p, 1, 3, 2, 0, 4, 2, 1));
    lemma_tm(p, -108, 1, 1, 1, 0, 4, 2, 1, -1, 0, 0, 3, 0, 0, 0, 1);
    assert(t30 * s3 == (108) * mn(p, 1, 1, 4, 0, 4, 2, 2));
    assert(t30 * q == (108) * mn(p, 4, 1, 1, 0, 4, 2, 1) + (-324) * mn(p, 2, 1, 3, 0, 4, 2, 1) + (-108) * mn(p, 1, 3, 2, 0, 4, 2, 1) + (108) * mn(p, 1, 1, 4, 0, 4, 2, 2));
    lemma_tm(p, 324, 1, 1, 1, 0, 2, 4, 2, -1, 3, 0, 0, 0, 0, 0, 0);
    assert(t31 * s0 == (-324) * mn(p, 4, 1, 1, 0, 2, 4, 2));
    lemma_tm(p, 324, 1, 1, 1, 0, 2, 4, 2, 3, 1, 0, 2, 0, 0, 0, 0);
    assert(t31 * s1 == (972) * mn(p, 2, 1, 3, 0, 2, 4, 2));
    lemma_tm(p, 324, 1, 1, 1, 0, 2, 4, 2, 1, 0, 2, 1, 0, 0, 0, 0);
    assert(t31 * s2 == (324) * mn(p, 1, 3, 2, 0, 2, 4, 2));
    lemma_tm(p, 324, 1, 1, 1, 0, 2, 4, 2, -1, 0, 0, 3, 0, 0, 0, 1);
    assert(t31 * s3 == (-324) * mn(p, 1, 1, 4, 0, 2, 4, 3));
    assert(t31 * q == (-324) * mn(p, 4, 1, 1, 0, 2, 4, 2) + (972) * mn(p, 2, 1, 3, 0, 2, 4, 2) + (324) * mn(p, 1, 3, 2, 0, 2, 4, 2) + (-324) * mn(p, 1, 1, 4, 0, 2, 4, 3));
    assert(pp31 * q == (((((((-486) * mn(p, 5, 0, 1, 0, 1, 5, 0) + ((-81) * mn(p, 4, 2, 0, 5, 1, 0, 1) + (486) * mn(p, 4, 2, 0, 4, 1, 1, 0))) + (((27) * mn(p, 4, 2, 0, 3, 3, 0, 0) + (-162) * mn(p, 4, 2, 0, 3, 1, 2, 1)) + ((27) * mn(p, 4, 2, 0, 2, 3, 1, 1) + (81) * mn(p, 4, 2, 0, 2, 1, 3, 2)))) + ((((-648) * mn(p, 4, 2, 0, 2, 1, 3, 0) + (-189) * mn(p, 4, 2, 0, 1, 3, 2, 0)) + ((243) * mn(p, 4, 2, 0, 1, 1, 4, 1) + (-9) * mn(p, 4, 2, 0, 0, 5, 1, 0))) + (((54) * mn(p, 4, 2, 0, 0, 3, 3, 1) + (-81) * mn(p, 4, 2, 0, 0, 1, 5, 2)) + ((162) * mn(p, 4, 2, 0, 0, 1, 5, 0) + (-486) * mn(p, 4, 1, 1, 6, 0, 0, 1))))) + (((((486) * mn(p, 4, 1, 1, 5, 0, 1, 2) + (1458) * mn(p, 4, 1, 1, 5, 0, 1, 0)) + ((486) * mn(p, 4, 1, 1, 4, 2, 0, 0) + (-1215) * mn(p, 4, 1, 1, 4, 0, 2, 1))) + (((-162) * mn(p, 4, 1, 1, 3, 2, 1, 1) + (-972) * mn(p, 4, 1, 1, 3, 0, 3, 2)) + ((-972) * mn(p, 4, 1, 1, 3, 0, 3, 0) + (-27) * mn(p, 4, 1, 1, 2, 4, 0, 1)))) + ((((-1944) * mn(p, 4, 1, 1, 2, 2, 2, 0) + (243) * mn(p, 4, 1, 1, 2, 0, 4, 3)) + ((3888) * mn(p, 4, 1, 1, 2, 0, 4, 1) + (-162) * mn(p, 4, 1, 1, 1, 4, 1, 0))) + (((1458) * mn(p, 4, 1, 1, 1, 2, 3, 1) + (-972) * mn(p, 4, 1, 1, 1, 0, 5, 2)) + ((-2430) * mn(p, 4, 1, 1, 1, 0, 5, 0) + (108) * mn(p, 4, 1, 1, 0, 4, 2, 1)))))) + ((((((-324) * mn(p, 4, 1, 1, 0, 2, 4, 2) + (1458) * mn(p, 3, 0, 3, 0, 1, 5, 0)) + ((243) * mn(p, 2, 2, 2, 5, 1, 0, 1) + (-1458) * mn(p, 2, 2, 2, 4, 1, 1, 0))) + (((-81) * mn(p, 2, 2, 2, 3, 3, 0, 0) + (486) * mn(p, 2, 2, 2, 3, 1, 2, 1)) + ((-81) * mn(p, 2, 2, 2, 2, 3, 1, 1) + (-243) * mn(p, 2, 2, 2, 2, 1, 3, 2)))) + ((((1944) * mn(p, 2, 2, 2, 2, 1, 3, 0) + (567) * mn(p, 2, 2, 2, 1, 3, 2, 0)) + ((-729) * mn(p, 2, 2, 2, 1, 1, 4, 1) + (27) * mn(p, 2, 2, 2, 0, 5, 1, 0))) + (((-162) * mn(p, 2, 2, 2, 0, 3, 3, 1) + (243) * mn(p, 2, 2, 2, 0, 1, 5, 2)) + ((1458) * mn(p, 2, 1, 3, 6, 0, 0, 1) + (-1458) * mn(p, 2, 1, 3, 5, 0, 1, 2))))) + (((((-4374) * mn(p, 2, 1, 3, 5, 0, 1, 0) + (-1458) * mn(p, 2, 1, 3, 4, 2, 0, 0)) + ((3645) * mn(p, 2, 1, 3, 4, 0, 2, 1) + (486) * mn(p, 2, 1, 3, 3, 2, 1, 1))) + (((2916) * mn(p, 2, 1, 3, 3, 0, 3, 2) + (2916) * mn(p, 2, 1, 3, 3, 0, 3, 0)) + ((81) * mn(p, 2, 1, 3, 2, 4, 0, 1) + (5832) * mn(p, 2, 1, 3, 2, 2, 2, 0)))) + ((((-729) * mn(p, 2, 1, 3, 2, 0, 4, 3) + (-11664) * mn(p, 2, 1, 3, 2, 0, 4, 1)) + ((486) * mn(p, 2, 1, 3, 1, 4, 1, 0) + (-4374) * mn(p, 2, 1, 3, 1, 2, 3, 1))) + (((2916) * mn(p, 2, 1, 3, 1, 0, 5, 2) + (7290) * mn(p, 2, 1, 3, 1, 0, 5, 0)) + ((-324) * mn(p, 2, 1, 3, 0, 4, 2, 1) + (972) * mn(p, 2, 1, 3, 0, 2, 4, 2))))))) + ((((((-486) * mn(p, 2, 0, 4, 0, 1, 5, 1) + ((81) * mn(p, 1, 4, 1, 5, 1, 0, 1) + (-486) * mn(p, 1, 4, 1, 4, 1, 1, 0))) + (((-27) * mn(p, 1, 4, 1, 3, 3, 0, 0) + (162) * mn(p, 1, 4, 1, 3, 1, 2, 1)) + ((-27) * mn(p, 1, 4, 1, 2, 3, 1, 1) + (-81) * mn(p, 1, 4, 1, 2, 1, 3, 2)))) + ((((648) * mn(p, 1, 4, 1, 2, 1, 3, 0) + (189) * mn(p, 1, 4, 1, 1, 3, 2, 0)) + ((-243) * mn(p, 1, 4, 1, 1, 1, 4, 1) + (9) * mn(p, 1, 4, 1, 0, 5, 1, 0))) + (((-54) * mn(p, 1, 4, 1, 0, 3, 3, 1) + (81) * mn(p, 1, 4, 1, 0, 1, 5, 2)) + ((-162) * mn(p, 1, 4, 1, 0, 1, 5, 0) + (486) * mn(p, 1, 3, 2, 6, 0, 0, 1))))) + (((((-486) * mn(p, 1, 3, 2, 5, 0, 1, 2) + (-1458) * mn(p, 1, 3, 2, 5, 0, 1, 0)) + ((-486) * mn(p, 1, 3, 2, 4, 2, 0, 0) + (1215) * mn(p, 1, 3, 2, 4, 0, 2, 1))) + (((162) * mn(p, 1, 3, 2, 3, 2, 1, 1) + (972) * mn(p, 1, 3, 2, 3, 0, 3, 2)) + ((972) * mn(p, 1, 3, 2, 3, 0, 3, 0) + (27) * mn(p, 1, 3, 2, 2, 4, 0, 1)))) + ((((1944) * mn(p, 1, 3, 2, 2, 2, 2, 0) + (-243) * mn(p, 1, 3, 2, 2, 0, 4, 3)) + ((-3888) * mn(p, 1, 3, 2, 2, 0, 4, 1) + (162) * mn(p, 1, 3, 2, 1, 4, 1, 0))) + (((-1458) * mn(p, 1, 3, 2, 1, 2, 3, 1) + (972) * mn(p, 1, 3, 2, 1, 0, 5, 2)) + ((2430) * mn(p, 1, 3, 2, 1, 0, 5, 0) + (-108) * mn(p, 1, 3, 2, 0, 4, 2, 1)))))) + ((((((324) * mn(p, 1, 3, 2, 0, 2, 4, 2) + (-81) * mn(p, 1, 2, 3, 5, 1, 0, 2)) + ((486) * mn(p, 1, 2, 3, 4, 1, 1, 1) + (27) * mn(p, 1, 2, 3, 3, 3, 0, 1))) + (((-162) * mn(p, 1, 2, 3, 3, 1, 2, 2) + (27) * mn(p, 1, 2, 3, 2, 3, 1, 2)) + ((81) * mn(p, 1, 2, 3, 2, 1, 3, 3) + (-648) * mn(p, 1, 2, 3, 2, 1, 3, 1)))) + ((((-189) * mn(p, 1, 2, 3, 1, 3, 2, 1) + (243) * mn(p, 1, 2, 3, 1, 1, 4, 2)) + ((-9) * mn(p, 1, 2, 3, 0, 5, 1, 1) + (54) * mn(p, 1, 2, 3, 0, 3, 3, 2))) + (((-81) * mn(p, 1, 2, 3, 0, 1, 5, 3) + (162) * mn(p, 1, 2, 3, 0, 1, 5, 1)) + ((-486) * mn(p, 1, 1, 4, 6, 0, 0, 2) + (486) * mn(p, 1, 1, 4, 5, 0, 1, 3))))) + (((((1458) * mn(p, 1, 1, 4, 5, 0, 1, 1) + (486) * mn(p, 1, 1, 4, 4, 2, 0, 1)) + ((-1215) * mn(p, 1, 1, 4, 4, 0, 2, 2) + (-162) * mn(p, 1, 1, 4, 3, 2, 1, 2))) + (((-972) * mn(p, 1, 1, 4, 3, 0, 3, 3) + (-972) * mn(p, 1, 1, 4, 3, 0, 3, 1)) + ((-27) * mn(p, 1, 1, 4, 2, 4, 0, 2) + (-1944) * mn(p, 1, 1, 4, 2, 2, 2, 1)))) + ((((243) * mn(p, 1, 1, 4, 2, 0, 4, 4) + (3888) * mn(p, 1, 1, 4, 2, 0, 4, 2)) + ((-162) * mn(p, 1, 1, 4, 1, 4, 1, 1) + (1458) * mn(p, 1, 1, 4, 1, 2, 3, 2))) + (((-972) * mn(p, 1, 1, 4, 1, 0, 5, 3) + (-2430) * mn(p, 1, 1, 4, 1, 0, 5, 1)) + ((108) * mn(p, 1, 1, 4, 0, 4, 2, 2) + (-324) * mn(p, 1, 1, 4, 0, 2, 4, 3)))))))));
    assert(pp31 == ((((((486) * mn(p, 2, 0, 1, 0, 1, 5, 0) + (81) * mn(p, 1, 2, 0, 5, 1, 0, 1)) + ((-486) * mn(p, 1, 2, 0, 4, 1, 1, 0) + (-27) * mn(p, 1, 2, 0, 3, 3, 0, 0))) + (((162) * mn(p, 1, 2, 0, 3, 1, 2, 1) + (-27) * mn(p, 1, 2, 0, 2, 3, 1, 1)) + ((-81) * mn(p, 1, 2, 0, 2, 1, 3, 2) + (648) * mn(p, 1, 2, 0, 2, 1, 3, 0)))) + ((((189) * mn(p, 1, 2, 0, 1, 3, 2, 0) + (-243) * mn(p, 1, 2, 0, 1, 1, 4, 1)) + ((9) * mn(p, 1, 2, 0, 0, 5, 1, 0) + (-54) * mn(p, 1, 2, 0, 0, 3, 3, 1))) + (((81) * mn(p, 1, 2, 0, 0, 1, 5, 2) + (-162) * mn(p, 1, 2, 0, 0, 1, 5, 0)) + ((486) * mn(p, 1, 1, 1, 6, 0, 0, 1) + (-486) * mn(p, 1, 1, 1, 5, 0, 1, 2))))) + (((((-1458) * mn(p, 1, 1, 1, 5, 0, 1, 0) + (-486) * mn(p, 1, 1, 1, 4, 2, 0, 0)) + ((1215) * mn(p, 1, 1, 1, 4, 0, 2, 1) + (162) * mn(p, 1, 1, 1, 3, 2, 1, 1))) + (((972) * mn(p, 1, 1, 1, 3, 0, 3, 2) + (972) * mn(p, 1, 1, 1, 3, 0, 3, 0)) + ((27) * mn(p, 1, 1, 1, 2, 4, 0, 1) + (1944) * mn(p, 1, 1, 1, 2, 2, 2, 0)))) + ((((-243) * mn(p, 1, 1, 1, 2, 0, 4, 3) + (-3888) * mn(p, 1, 1, 1, 2, 0, 4, 1)) + ((162) * mn(p, 1, 1, 1, 1, 4, 1, 0) + (-1458) * mn(p, 1, 1, 1, 1, 2, 3, 1))) + (((972) * mn(p, 1, 1, 1, 1, 0, 5, 2) + (2430) * mn(p, 1, 1, 1, 1, 0, 5, 0)) + ((-108) * mn(p, 1, 1, 1, 0, 4, 2, 1) + (324) * mn(p, 1, 1, 1, 0, 2, 4, 2)))))));
    assert(q == (((-1) * mn(p, 3, 0, 0, 0, 0, 0, 0) + (3) * mn(p, 1, 0, 2, 0, 0, 0, 0)) + ((1) * mn(p, 0, 2, 1, 0, 0, 0, 0) + (-1) * mn(p, 0, 0, 3, 0, 0, 0, 1))));
}

#[verifier::rlimit(100)]
proof fn acc_prod36_c2(p: Pt)
    ensures
        (((((((-162) * mn(p, 1, 1, 1, 0, 2, 4, 0) + (-729) * mn(p, 1, 1, 1, 0, 0, 6, 1)) + ((-243) * mn(p, 1, 0, 2, 5, 1, 0, 2) + (-972) * mn(p, 1, 0, 2, 5, 1, 0, 0))) + (((2673) * mn(p, 1, 0, 2, 4, 1, 1, 1) + (81) * mn(p, 1, 0, 2, 3, 3, 0, 1)) + ((-486) * mn(p, 1, 0, 2, 3, 1, 2, 2) + (81) * mn(p, 1, 0, 2, 2, 3, 1, 2)))) + ((((648) * mn(p, 1, 0, 2, 2, 3, 1, 0) + (243) * mn(p, 1, 0, 2, 2, 1, 3, 3)) + ((-4374) * mn(p, 1, 0, 2, 2, 1, 3, 1) + (-1215) * mn(p, 1, 0, 2, 1, 3, 2, 1))) + (((729) * mn(p, 1, 0, 2, 1, 1, 4, 2) + (4860) * mn(p, 1, 0, 2, 1, 1, 4, 0)) + ((324) * mn(p, 1, 0, 2, 0, 3, 3, 2) + (-1215) * mn(p, 1, 0, 2, 0, 1, 5, 1))))) + (((((27) * mn(p, 0, 3, 0, 6, 0, 0, 1) + (-162) * mn(p, 0, 3, 0, 5, 0, 1, 0)) + ((-27) * mn(p, 0, 3, 0, 4, 2, 0, 0) + (540) * mn(p, 0, 3, 0, 3, 0, 3, 0))) + (((162) * mn(p, 0, 3, 0, 2, 2, 2, 0) + (-405) * mn(p, 0, 3, 0, 2, 0, 4, 1)) + ((18) * mn(p, 0, 3, 0, 1, 4, 1, 0) + (-108) * mn(p, 0, 3, 0, 1, 2, 3, 1)))) + ((((162) * mn(p, 0, 3, 0, 1, 0, 5, 2) + (-162) * mn(p, 0, 3, 0, 1, 0, 5, 0)) + ((1) * mn(p, 0, 3, 0, 0, 6, 0, 0) + (-9) * mn(p, 0, 3, 0, 0, 4, 2, 1))) + (((27) * mn(p, 0, 3, 0, 0, 2, 4, 2) + (-27) * mn(p, 0, 3, 0, 0, 2, 4, 0)) + ((-27) * mn(p, 0, 3, 0, 0, 0, 6, 3) + (54) * mn(p, 0, 3, 0, 0, 0, 6, 1))))))) * ((((-1) * mn(p, 3, 0, 0, 0, 0, 0, 0) + (3) * mn(p, 1, 0, 2, 0, 0, 0, 0)) + ((1) * mn(p, 0, 2, 1, 0, 0, 0, 0) + (-1) * mn(p, 0, 0, 3, 0, 0, 0, 1)))) == (((((((162) * mn(p, 4, 1, 1, 0, 2, 4, 0) + ((729) * mn(p, 4, 1, 1, 0, 0, 6, 1) + (243) * mn(p, 4, 0, 2, 5, 1, 0, 2))) + (((972) * mn(p, 4, 0, 2, 5, 1, 0, 0) + (-2673) * mn(p, 4, 0, 2, 4, 1, 1, 1)) + ((-81) * mn(p, 4, 0, 2, 3, 3, 0, 1) + (486) * mn(p, 4, 0, 2, 3, 1, 2, 2)))) + ((((-81) * mn(p, 4, 0, 2, 2, 3, 1, 2) + (-648) * mn(p, 4, 0, 2, 2, 3, 1, 0)) + ((-243) * mn(p, 4, 0, 2, 2, 1, 3, 3) + (4374) * mn(p, 4, 0, 2, 2, 1, 3, 1))) + (((1215) * mn(p, 4, 0, 2, 1, 3, 2, 1) + (-729) * mn(p, 4, 0, 2, 1, 1, 4, 2)) + ((-4860) * mn(p, 4, 0, 2, 1, 1, 4, 0) + (-324) * mn(p, 4, 0, 2, 0, 3, 3, 2))))) + (((((1215) * mn(p, 4, 0, 2, 0, 1, 5, 1) + (-27) * mn(p, 3, 3, 0, 6, 0, 0, 1)) + ((162) * mn(p, 3, 3, 0, 5, 0, 1, 0) + (27) * mn(p, 3, 3, 0, 4, 2, 0, 0))) + (((-540) * mn(p, 3, 3, 0, 3, 0, 3, 0) + (-162) * mn(p, 3, 3, 0, 2, 2, 2, 0)) + ((405) * mn(p, 3, 3, 0, 2, 0, 4, 1) + (-18) * mn(p, 3, 3, 0, 1, 4, 1, 0)))) + ((((108) * mn(p, 3, 3, 0, 1, 2, 3, 1) + (-162) * mn(p, 3, 3, 0, 1, 0, 5, 2)) + ((162) * mn(p, 3, 3, 0, 1, 0, 5, 0) + (-1) * mn(p, 3, 3, 0, 0, 6, 0, 0))) + (((9) * mn(p, 3, 3, 0, 0, 4, 2, 1) + (-27) * mn(p, 3, 3, 0, 0, 2, 4, 2)) + ((27) * mn(p, 3, 3, 0, 0, 2, 4, 0) + (27) * mn(p, 3, 3, 0, 0, 0, 6, 3)))))) + ((((((-54) * mn(p, 3, 3, 0, 0, 0, 6, 1) + (-486) * mn(p, 2, 1, 3, 0, 2, 4, 0)) + ((-2187) * mn(p, 2, 1, 3, 0, 0, 6, 1) + (-729) * mn(p, 2, 0, 4, 5, 1, 0, 2))) + (((-2916) * mn(p, 2, 0, 4, 5, 1, 0, 0) + (8019) * mn(p, 2, 0, 4, 4, 1, 1, 1)) + ((243) * mn(p, 2, 0, 4, 3, 3, 0, 1) + (-1458) * mn(p, 2, 0, 4, 3, 1, 2, 2)))) + ((((243) * mn(p, 2, 0, 4, 2, 3, 1, 2) + (1944) * mn(p, 2, 0, 4, 2, 3, 1, 0)) + ((729) * mn(p, 2, 0, 4, 2, 1, 3, 3) + (-13122) * mn(p, 2, 0, 4, 2, 1, 3, 1))) + (((-3645) * mn(p, 2, 0, 4, 1, 3, 2, 1) + (2187) * mn(p, 2, 0, 4, 1, 1, 4, 2)) + ((14580) * mn(p, 2, 0, 4, 1, 1, 4, 0) + (972) * mn(p, 2, 0, 4, 0, 3, 3, 2))))) + (((((-3645) * mn(p, 2, 0, 4, 0, 1, 5, 1) + (81) * mn(p, 1, 3, 2, 6, 0, 0, 1)) + ((-486) * mn(p, 1, 3, 2, 5, 0, 1, 0) + (-81) * mn(p, 1, 3, 2, 4, 2, 0, 0))) + (((1620) * mn(p, 1, 3, 2, 3, 0, 3, 0) + (486) * mn(p, 1, 3, 2, 2, 2, 2, 0)) + ((-1215) * mn(p, 1, 3, 2, 2, 0, 4, 1) + (54) * mn(p, 1, 3, 2, 1, 4, 1, 0)))) + ((((-324) * mn(p, 1, 3, 2, 1, 2, 3, 1) + (486) * mn(p, 1, 3, 2, 1, 0, 5, 2)) + ((-486) * mn(p, 1, 3, 2, 1, 0, 5, 0) + (3) * mn(p, 1, 3, 2, 0, 6, 0, 0))) + (((-27) * mn(p, 1, 3, 2, 0, 4, 2, 1) + (81) * mn(p, 1, 3, 2, 0, 2, 4, 2)) + ((-243) * mn(p, 1, 3, 2, 0, 2, 4, 0) + (-81) * mn(p, 1, 3, 2, 0, 0, 6, 3))))))) + ((((((-567) * mn(p, 1, 3, 2, 0, 0, 6, 1) + ((-243) * mn(p, 1, 2, 3, 5, 1, 0, 2) + (-972) * mn(p, 1, 2, 3, 5, 1, 0, 0))) + (((2673) * mn(p, 1, 2, 3, 4, 1, 1, 1) + (81) * mn(p, 1, 2, 3, 3, 3, 0, 1)) + ((-486) * mn(p, 1, 2, 3, 3, 1, 2, 2) + (81) * mn(p, 1, 2, 3, 2, 3, 1, 2)))) + ((((648) * mn(p, 1, 2, 3, 2, 3, 1, 0) + (243) * mn(p, 1, 2, 3, 2, 1, 3, 3)) + ((-4374) * mn(p, 1, 2, 3, 2, 1, 3, 1) + (-1215) * mn(p, 1, 2, 3, 1, 3, 2, 1))) + (((729) * mn(p, 1, 2, 3, 1, 1, 4, 2) + (4860) * mn(p, 1, 2, 3, 1, 1, 4, 0)) + ((324) * mn(p, 1, 2, 3, 0, 3, 3, 2) + (-1215) * mn(p, 1, 2, 3, 0, 1, 5, 1))))) + (((((162) * mn(p, 1, 1, 4, 0, 2, 4, 1) + (729) * mn(p, 1, 1, 4, 0, 0, 6, 2)) + ((243) * mn(p, 1, 0, 5, 5, 1, 0, 3) + (972) * mn(p, 1, 0, 5, 5, 1, 0, 1))) + (((-2673) * mn(p, 1, 0, 5, 4, 1, 1, 2) + (-81) * mn(p, 1, 0, 5, 3, 3, 0, 2)) + ((486) * mn(p, 1, 0, 5, 3, 1, 2, 3) + (-81) * mn(p, 1, 0, 5, 2, 3, 1, 3)))) + ((((-648) * mn(p, 1, 0, 5, 2, 3, 1, 1) + (-243) * mn(p, 1, 0, 5, 2, 1, 3, 4)) + ((4374) * mn(p, 1, 0, 5, 2, 1, 3, 2) + (1215) * mn(p, 1, 0, 5, 1, 3, 2, 2))) + (((-729) * mn(p, 1, 0, 5, 1, 1, 4, 3) + (-4860) * mn(p, 1, 0, 5, 1, 1, 4, 1)) + ((-324) * mn(p, 1, 0, 5, 0, 3, 3, 3) + (1215) * mn(p, 1, 0, 5, 0, 1, 5, 2)))))) + ((((((27) * mn(p, 0, 5, 1, 6, 0, 0, 1) + (-162) * mn(p, 0, 5, 1, 5, 0, 1, 0)) + ((-27) * mn(p, 0, 5, 1, 4, 2, 0, 0) + (540) * mn(p, 0, 5, 1, 3, 0, 3, 0))) + (((162) * mn(p, 0, 5, 1, 2, 2, 2, 0) + (-405) * mn(p, 0, 5, 1, 2, 0, 4, 1)) + ((18) * mn(p, 0, 5, 1, 1, 4, 1, 0) + (-108) * mn(p, 0, 5, 1, 1, 2, 3, 1)))) + ((((162) * mn(p, 0, 5, 1, 1, 0, 5, 2) + (-162) * mn(p, 0, 5, 1, 1, 0, 5, 0)) + ((1) * mn(p, 0, 5, 1, 0, 6, 0, 0) + (-9) * mn(p, 0, 5, 1, 0, 4, 2, 1))) + (((27) * mn(p, 0, 5, 1, 0, 2, 4, 2) + (-27) * mn(p, 0, 5, 1, 0, 2, 4, 0)) + ((-27) * mn(p, 0, 5, 1, 0, 0, 6, 3) + (54) * mn(p, 0, 5, 1, 0, 0, 6, 1))))) + (((((-27) * mn(p, 0, 3, 3, 6, 0, 0, 2) + (162) * mn(p, 0, 3, 3, 5, 0, 1, 1)) + ((27) * mn(p, 0, 3, 3, 4, 2, 0, 1) + (-540) * mn(p, 0, 3, 3, 3, 0, 3, 1))) + (((-162) * mn(p, 0, 3, 3, 2, 2, 2, 1) + (405) * mn(p, 0, 3, 3, 2, 0, 4, 2)) + ((-18) * mn(p, 0, 3, 3, 1, 4, 1, 1) + (108) * mn(p, 0, 3, 3, 1, 2, 3, 2)))) + ((((-162) * mn(p, 0, 3, 3, 1, 0, 5, 3) + (162) * mn(p, 0, 3, 3, 1, 0, 5, 1)) + ((-1) * mn(p, 0, 3, 3, 0, 6, 0, 1) + (9) * mn(p, 0, 3, 3, 0, 4, 2, 2))) + (((-27) * mn(p, 0, 3, 3, 0, 2, 4, 3) + (27) * mn(p, 0, 3, 3, 0, 2, 4, 1)) + ((27) * mn(p, 0, 3, 3, 0, 0, 6, 4) + (-54) * mn(p, 0, 3, 3, 0, 0, 6, 2)))))))),
{
    let t0 = (-162) * mn(p, 1, 1, 1, 0, 2, 4, 0);
    let t1 = (-729) * mn(p, 1, 1, 1, 0, 0, 6, 1);
    let t2 = (-243) * mn(p, 1, 0, 2, 5, 1, 0, 2);
    let t3 = (-972) * mn(p, 1, 0, 2, 5, 1, 0, 0);
    let t4 = (2673) * mn(p, 1, 0, 2, 4, 1, 1, 1);
    let t5 = (81) * mn(p, 1, 0, 2, 3, 3, 0, 1);
    let t6 = (-486) * mn(p, 1, 0, 2, 3, 1, 2, 2);
    let t7 = (81) * mn(p, 1, 0, 2, 2, 3, 1, 2);
    let t8 = (648) * mn(p, 1, 0, 2, 2, 3, 1, 0);
    let t9 = (243) * mn(p, 1, 0, 2, 2, 1, 3, 3);
    let t10 = (-4374) * mn(p, 1, 0, 2, 2, 1, 3, 1);
    let t11 = (-1215) * mn(p, 1, 0, 2, 1, 3, 2, 1);
    let t12 = (729) * mn(p, 1, 0, 2, 1, 1, 4, 2);
    let t13 = (4860) * mn(p, 1, 0, 2, 1, 1, 4, 0);
    let t14 = (324) * mn(p, 1, 0, 2, 0, 3, 3, 2);
    let t15 = (-1215) * mn(p, 1, 0, 2, 0, 1, 5, 1);
    let t16 = (27) * mn(p, 0, 3, 0, 6, 0, 0, 1);
    let t17 = (-162) * mn(p, 0, 3, 0, 5, 0, 1, 0);
    let t18 = (-27) * mn(p, 0, 3, 0, 4, 2, 0, 0);
    let t19 = (540) * mn(p, 0, 3, 0, 3, 0, 3, 0);
    let t20 = (162) * mn(p, 0, 3, 0, 2, 2, 2, 0);
    let t21 = (-405) * mn(p, 0, 3, 0, 2, 0, 4, 1);
    let t22 = (18) * mn(p, 0, 3, 0, 1, 4, 1, 0);
    let t23 = (-108) * mn(p, 0, 3, 0, 1, 2, 3, 1);
    let t24 = (162) * mn(p, 0, 3, 0, 1, 0, 5, 2);
    let t25 = (-162) * mn(p, 0, 3, 0, 1, 0, 5, 0);
    let t26 = (1) * mn(p, 0, 3, 0, 0, 6, 0, 0);
    let t27 = (-9) * mn(p, 0, 3, 0, 0, 4, 2, 1);
    let t28 = (27) * mn(p, 0, 3, 0, 0, 2, 4, 2);
    let t29 = (-27) * mn(p, 0, 3, 0, 0, 2, 4, 0);
    let t30 = (-27) * mn(p, 0, 3, 0, 0, 0, 6, 3);
    let t31 = (54) * mn(p, 0, 3, 0, 0, 0, 6, 1);
    let s0 = (-1) * mn(p, 3, 0, 0, 0, 0, 0, 0);
    let s1 = (3) * mn(p, 1, 0, 2, 0, 0, 0, 0);
    let s2 = (1) * mn(p, 0, 2, 1, 0, 0, 0, 0);
    let s3 = (-1) * mn(p, 0, 0, 3, 0, 0, 0, 1);
    let pp0 = t0;
    let pp1 = pp0 + t1;
    let pp2 = pp1 + t2;
    let pp3 = pp2 + t3;
    let pp4 = pp3 + t4;
    let pp5 = pp4 + t5;
    let pp6 = pp5 + t6;
    let pp7 = pp6 + t7;
    let pp8 = pp7 + t8;
    let pp9 = pp8 + t9;
    let pp10 = pp9 + t10;
    let pp11 = pp10 + t11;
    let pp12 = pp11 + t12;
    let pp13 = pp12 + t13;
    let pp14 = pp13 + t14;
    let pp15 = pp14 + t15;
    let pp16 = pp15 + t16;
    let pp17 = pp16 + t17;
    let pp18 = pp17 + t18;
    let pp19 = pp18 + t19;
    let pp20 = pp19 + t20;
    let pp21 = pp20 + t21;
    let pp22 = pp21 + t22;
    let pp23 = pp22 + t23;
    let pp24 = pp23 + t24;
    let pp25 = pp24 + t25;
    let pp26 = pp25 + t26;
    let pp27 = pp26 + t27;
    let pp28 = pp27 + t28;
    let pp29 = pp28 + t29;
    let pp30 = pp29 + t30;
    let pp31 = pp30 + t31;
    let qq0 = s0;
    let qq1 = qq0 + s1;
    let qq2 = qq1 + s2;
    let qq3 = qq2 + s3;
    let q = qq3;
    lemma_mul_is_distributive_add_other_way(q, pp0, t1);
    lemma_mul_is_distributive_add_other_way(q, pp1, t2);
    lemma_mul_is_distributive_add_other_way(q, pp2, t3);
    lemma_mul_is_distributive_add_other_way(q, pp3, t4);
    lemma_mul_is_distributive_add_other_way(q, pp4, t5);
    lemma_mul_is_distributive_add_other_way(q, pp5, t6);
    lemma_mul_is_distributive_add_other_way(q, pp6, t7);
    lemma_mul_is_distributive_add_other_way(q, pp7, t8);
    lemma_mul_is_distributive_add_other_way(q, pp8, t9);
    lemma_mul_is_distributive_add_other_way(q, pp9, t10);
    lemma_mul_is_distributive_add_other_way(q, pp10, t11);
    lemma_mul_is_distributive_add_other_way(q, pp11, t12);
    lemma_mul_is_distributive_add_other_way(q, pp12, t13);
    lemma_mul_is_distributive_add_other_way(q, pp13, t14);
    lemma_mul_is_distributive_add_other_way(q, pp14, t15);
    lemma_mul_is_distributive_add_other_way(q, pp15, t16);
    lemma_mul_is_distributive_add_other_way(q, pp16, t17);
    lemma_mul_is_distributive_add_other_way(q, pp17, t18);
    lemma_mul_is_distributive_add_other_way(q, pp18, t19);
    lemma_mul_is_distributive_add_other_way(q, pp19, t20);
    lemma_mul_is_distributive_add_other_way(q, pp20, t21);
    lemma_mul_is_distributive_add_other_way(q, pp21, t22);
    lemma_mul_is_distributive_add_other_way(q, pp22, t23);
    lemma_mul_is_distributive_add_other_way(q, pp23, t24);
    lemma_mul_is_distributive_add_other_way(q, pp24, t25);
    lemma_mul_is_distributive_add_other_way(q, pp25, t26);
    lemma_mul_is_distributive_add_other_way(q, pp26, t27);
    lemma_mul_is_distributive_add_other_way(q, pp27, t28);
    lemma_mul_is_distributive_add_other_way(q, pp28, t29);
    lemma_mul_is_distributive_add_other_way(q, pp29, t30);
    lemma_mul_is_distributive_add_other_way(q, pp30, t31);
    lemma_mul_is_distributive_add(t0, qq0, s1);
    lemma_mul_is_distributive_add(t0, qq1, s2);
    lemma_mul_is_distributive_add(t0, qq2, s3);
    lemma_mul_is_distributive_add(t1, qq0, s1);
    lemma_mul_is_distributive_add(t1, qq1, s2);
    lemma_mul_is_distributive_add(t1, qq2, s3);
    lemma_mul_is_distributive_add(t2, qq0, s1);
    lemma_mul_is_distributive_add(t2, qq1, s2);
    lemma_mul_is_distributive_add(t2, qq2, s3);
    lemma_mul_is_distributive_add(t3, qq0, s1);
    lemma_mul_is_distributive_add(t3, qq1, s2);
    lemma_mul_is_distributive_add(t3, qq2, s3);
    lemma_mul_is_distributive_add(t4, qq0, s1);
    lemma_mul_is_distributive_add(t4, qq1, s2);
    lemma_mul_is_distributive_add(t4, qq2, s3);
    lemma_mul_is_distributive_add(t5, qq0, s1);
    lemma_mul_is_distributive_add(t5, qq1, s2);
    lemma_mul_is_distributive_add(t5, qq2, s3);
    lemma_mul_is_distributive_add(t6, qq0, s1);
    lemma_mul_is_distributive_add(t6, qq1, s2);
    lemma_mul_is_distributive_add(t6, qq2, s3);
    lemma_mul_is_distributive_add(t7, qq0, s1);
    lemma_mul_is_distributive_add(t7, qq1, s2);
    lemma_mul_is_distributive_add(t7, qq2, s3);
    lemma_mul_is_distributive_add(t8, qq0, s1);
    lemma_mul_is_distributive_add(t8, qq1, s2);
    lemma_mul_is_distributive_add(t8, qq2, s3);
    lemma_mul_is_distributive_add(t9, qq0, s1);
    lemma_mul_is_distributive_add(t9, qq1, s2);
    lemma_mul_is_distributive_add(t9, qq2, s3);
    lemma_mul_is_distributive_add(t10, qq0, s1);
    lemma_mul_is_distributive_add(t10, qq1, s2);
    lemma_mul_is_distributive_add(t10, qq2, s3);
    lemma_mul_is_distributive_add(t11, qq0, s1);
    lemma_mul_is_distributive_add(t11, qq1, s2);
    lemma_mul_is_distributive_add(t11, qq2, s3);
    lemma_mul_is_distributive_add(t12, qq0, s1);
    lemma_mul_is_distributive_add(t12, qq1, s2);
    lemma_mul_is_distributive_add(t12, qq2, s3);
    lemma_mul_is_distributive_add(t13, qq0, s1);
    lemma_mul_is_distributive_add(t13, qq1, s2);
    lemma_mul_is_distributive_add(t13, qq2, s3);
    lemma_mul_is_distributive_add(t14, qq0, s1);
    lemma_mul_is_distributive_add(t14, qq1, s2);
    lemma_mul_is_distributive_add(t14, qq2, s3);
    lemma_mul_is_distributive_add(t15, qq0, s1);
    lemma_mul_is_distributive_add(t15, qq1, s2);
    lemma_mul_is_distributive_add(t15, qq2, s3);
    lemma_mul_is_distributive_add(t16, qq0, s1);
    lemma_mul_is_distributive_add(t16, qq1, s2);
    lemma_mul_is_distributive_add(t16, qq2, s3);
    lemma_mul_is_distributive_add(t17, qq0, s1);
    lemma_mul_is_distributive_add(t17, qq1, s2);
    lemma_mul_is_distributive_add(t17, qq2, s3);
    lemma_mul_is_distributive_add(t18, qq0, s1);
    lemma_mul_is_distributive_add(t18, qq1, s2);
    lemma_mul_is_distributive_add(t18, qq2, s3);
    lemma_mul_is_distributive_add(t19, qq0, s1);
    lemma_mul_is_distributive_add(t19, qq1, s2);
    lemma_mul_is_distributive_add(t19, qq2, s3);
    lemma_mul_is_distributive_add(t20, qq0, s1);
    lemma_mul_is_distributive_add(t20, qq1, s2);
    lemma_mul_is_distributive_add(t20, qq2, s3);
    lemma_mul_is_distributive_add(t21, qq0, s1);
    lemma_mul_is_distributive_add(t21, qq1, s2);
    lemma_mul_is_distributive_add(t21, qq2, s3);
    lemma_mul_is_distributive_add(t22, qq0, s1);
    lemma_mul_is_distributive_add(t22, qq1, s2);
    lemma_mul_is_distributive_add(t22, qq2, s3);
    lemma_mul_is_distributive_add(t23, qq0, s1);
    lemma_mul_is_distributive_add(t23, qq1, s2);
    lemma_mul_is_distributive_add(t23, qq2, s3);
    lemma_mul_is_distributive_add(t24, qq0, s1);
    lemma_mul_is_distributive_add(t24, qq1, s2);
    lemma_mul_is_distributive_add(t24, qq2, s3);
    lemma_mul_is_distributive_add(t25, qq0, s1);
    lemma_mul_is_distributive_add(t25, qq1, s2);
    lemma_mul_is_distributive_add(t25, qq2, s3);
    lemma_mul_is_distributive_add(t26, qq0, s1);
    lemma_mul_is_distributive_add(t26, qq1, s2);
    lemma_mul_is_distributive_add(t26, qq2, s3);
    lemma_mul_is_distributive_add(t27, qq0, s1);
    lemma_mul_is_distributive_add(t27, qq1, s2);
    lemma_mul_is_distributive_add(t27, qq2, s3);
    lemma_mul_is_distributive_add(t28, qq0, s1);
    lemma_mul_is_distributive_add(t28, qq1, s2);
    lemma_mul_is_distributive_add(t28, qq2, s3);
    lemma_mul_is_distributive_add(t29, qq0, s1);
    lemma_mul_is_distributive_add(t29, qq1, s2);
    lemma_mul_is_distributive_add(t29, qq2, s3);
    lemma_mul_is_distributive_add(t30, qq0, s1);
    lemma_mul_is_distributive_add(t30, qq1, s2);
    lemma_mul_is_distributive_add(t30, qq2, s3);
    lemma_mul_is_distributive_add(t31, qq0, s1);
    lemma_mul_is_distributive_add(t31, qq1, s2);
    lemma_mul_is_distributive_add(t31, qq2, s3);
    lemma_tm(p, -162, 1, 1, 1, 0, 2, 4, 0, -1, 3, 0, 0, 0, 0, 0, 0);
    assert(t0 * s0 == (162) * mn(p, 4, 1, 1, 0, 2, 4, 0));
    lemma_tm(p, -162, 1, 1, 1, 0, 2, 4, 0, 3, 1, 0, 2, 0, 0, 0, 0);
    assert(t0 * s1 == (-486) * mn(p, 2, 1, 3, 0, 2, 4, 0));
    lemma_tm(p, -162, 1, 1, 1, 0, 2, 4, 0, 1, 0, 2, 1, 0, 0, 0, 0);
    assert(t0 * s2 == (-162) * mn(p, 1, 3, 2, 0, 2, 4, 0));
    lemma_tm(p, -162, 1, 1, 1, 0, 2, 4, 0, -1, 0, 0, 3, 0, 0, 0, 1);
    assert(t0 * s3 == (162) * mn(p, 1, 1, 4, 0, 2, 4, 1));
    assert(t0 * q == (162) * mn(p, 4, 1, 1, 0, 2, 4, 0) + (-486) * mn(p, 2, 1, 3, 0, 2, 4, 0) + (-162) * mn(p, 1, 3, 2, 0, 2, 4, 0) + (162) * mn(p, 1, 1, 4, 0, 2, 4, 1));
    lemma_tm(p, -729, 1, 1, 1, 0, 0, 6, 1, -1, 3, 0, 0, 0, 0, 0, 0);
    assert(t1 * s0 == (729) * mn(p, 4, 1, 1, 0, 0, 6, 1));
    lemma_tm(p, -729, 1, 1, 1, 0, 0, 6, 1, 3, 1, 0, 2, 0, 0, 0, 0);
    assert(t1 * s1 == (-2187) * mn(p, 2, 1, 3, 0, 0, 6, 1));
    lemma_tm(p, -729, 1, 1, 1, 0, 0, 6, 1, 1, 0, 2, 1, 0, 0, 0, 0);
    assert(t1 * s2 == (-729) * mn(p, 1, 3, 2, 0, 0, 6, 1));
    lemma_tm(p, -729, 1, 1, 1, 0, 0, 6, 1, -1, 0, 0, 3, 0, 0, 0, 1);
    assert(t1 * s3 == (729) * mn(p, 1, 1, 4, 0, 0, 6, 2));
    assert(t1 * q == (729) * mn(p, 4, 1, 1, 0, 0, 6, 1) + (-2187) * mn(p, 2, 1, 3, 0, 0, 6, 1) + (-729) * mn(p, 1, 3, 2, 0, 0, 6, 1) + (729) * mn(p, 1, 1, 4, 0, 0, 6, 2));
    lemma_tm(p, -243, 1, 0, 2, 5, 1, 0, 2, -1, 3, 0, 0, 0, 0, 0, 0);
    assert(t2 * s0 == (243) * mn(p, 4, 0, 2, 5, 1, 0, 2));
    lemma_tm(p, -243, 1, 0, 2, 5, 1, 0, 2, 3, 1, 0, 2, 0, 0, 0, 0);
    assert(t2 * s1 == (-729) * mn(p, 2, 0, 4, 5, 1, 0, 2));
    lemma_tm(p, -243, 1, 0, 2, 5, 1, 0, 2, 1, 0, 2, 1, 0, 0, 0, 0);
    assert(t2 * s2 == (-243) * mn(p, 1, 2, 3, 5, 1, 0, 2));
    lemma_tm(p, -243, 1, 0, 2, 5, 1, 0, 2, -1, 0, 0, 3, 0, 0, 0, 1);
    assert(t2 * s3 == (243) * mn(p, 1, 0, 5, 5, 1, 0, 3));
    assert(t2 * q == (243) * mn(p, 4, 0, 2, 5, 1, 0, 2) + (-729) * mn(p, 2, 0, 4, 5, 1, 0, 2) + (-243) * mn(p, 1, 2, 3, 5, 1, 0, 2) + (243) * mn(p, 1, 0, 5, 5, 1, 0, 3));
    lemma_tm(p, -972, 1, 0, 2, 5, 1, 0, 0, -1, 3, 0, 0, 0, 0, 0, 0);
    assert(t3 * s0 == (972) * mn(p, 4, 0, 2, 5, 1, 0, 0));
    lemma_tm(p, -972, 1, 0, 2, 5, 1, 0, 0, 3, 1, 0, 2, 0, 0, 0, 0);
    assert(t3 * s1 == (-2916) * mn(p, 2, 0, 4, 5, 1, 0, 0));
    lemma_tm(p, -972, 1, 0, 2, 5, 1, 0, 0, 1, 0, 2, 1, 0, 0, 0, 0);
    assert(t3 * s2 == (-972) * mn(p, 1, 2, 3, 5, 1, 0, 0));
    lemma_tm(p, -972, 1, 0, 2, 5, 1, 0, 0, -1, 0, 0, 3, 0, 0, 0, 1);
    assert(t3 * s3 == (972) * mn(p, 1, 0, 5, 5, 1, 0, 1));
    assert(t3 * q == (972) * mn(p, 4, 0, 2, 5, 1, 0, 0) + (-2916) * mn(p, 2, 0, 4, 5, 1, 0, 0) + (-972) * mn(p, 1, 2, 3, 5, 1, 0, 0) + (972) * mn(p, 1, 0, 5, 5, 1, 0, 1));
    lemma_tm(p, 2673, 1, 0, 2, 4, 1, 1, 1, -1, 3, 0, 0, 0, 0, 0, 0);
    assert(t4 * s0 == (-2673) * mn(p, 4, 0, 2, 4, 1, 1, 1));
    lemma_tm(p, 2673, 1, 0, 2, 4, 1, 1, 1, 3, 1, 0, 2, 0, 0, 0, 0);
    assert(t4 * s1 == (8019) * mn(p, 2, 0, 4, 4, 1, 1, 1));
    lemma_tm(p, 2673, 1, 0, 2, 4, 1, 1, 1, 1, 0, 2, 1, 0, 0, 0, 0);
    assert(t4 * s2 == (2673) * mn(p, 1, 2, 3, 4, 1, 1, 1));
    lemma_tm(p, 2673, 1, 0, 2, 4, 1, 1, 1, -1, 0, 0, 3, 0, 0, 0, 1);
    assert(t4 * s3 == (-2673) * mn(p, 1, 0, 5, 4, 1, 1, 2));
    assert(t4 * q == (-2673) * mn(p, 4, 0, 2, 4, 1, 1, 1) + (8019) * mn(p, 2, 0, 4, 4, 1, 1, 1) + (2673) * mn(p, 1, 2, 3, 4, 1, 1, 1) + (-2673) * mn(p, 1, 0, 5, 4, 1, 1, 2));
    lemma_tm(p, 81, 1, 0, 2, 3, 3, 0, 1, -1, 3, 0, 0, 0, 0, 0, 0);
    assert(t5 * s0 == (-81) * mn(p, 4, 0, 2, 3, 3, 0, 1));
    lemma_tm(p, 81, 1, 0, 2, 3, 3, 0, 1, 3, 1, 0, 2, 0, 0, 0, 0);
    assert(t5 * s1 == (243) * mn(p, 2, 0, 4, 3, 3, 0, 1));
    lemma_tm(p, 81, 1, 0, 2, 3, 3, 0, 1, 1, 0, 2, 1, 0, 0, 0, 0);
    assert(t5 * s2 == (81) * mn(p, 1, 2, 3, 3, 3, 0, 1));
    lemma_tm(p, 81, 1, 0, 2, 3, 3, 0, 1, -1, 0, 0, 3, 0, 0, 0, 1);
    assert(t5 * s3 == (-81) * mn(p, 1, 0, 5, 3, 3, 0, 2));
    assert(t5 * q == (-81) * mn(p, 4, 0, 2, 3, 3, 0, 1) + (243) * mn(p, 2, 0, 4, 3, 3, 0, 1) + (81) * mn(p, 1, 2, 3, 3, 3, 0, 1) + (-81) * mn(p, 1, 0, 5, 3, 3, 0, 2));
    lemma_tm(p, -486, 1, 0, 2, 3, 1, 2, 2, -1, 3, 0, 0, 0, 0, 0, 0);
    assert(t6 * s0 == (486) * mn(p, 4, 0, 2, 3, 1, 2, 2));
    lemma_tm(p, -486, 1, 0, 2, 3, 1, 2, 2, 3, 1, 0, 2, 0, 0, 0, 0);
    assert(t6 * s1 == (-1458) * mn(p, 2, 0, 4, 3, 1, 2, 2));
    lemma_tm(p, -486, 1, 0, 2, 3, 1, 2, 2, 1, 0, 2, 1, 0, 0, 0, 0);
    assert(t6 * s2 == (-486) * mn(p, 1, 2, 3, 3, 1, 2, 2));
    lemma_tm(p, -486, 1, 0, 2, 3, 1, 2, 2, -1, 0, 0, 3, 0, 0, 0, 1);
    assert(t6 * s3 == (486) * mn(p, 1, 0, 5, 3, 1, 2, 3));
    assert(t6 * q == (486) * mn(p, 4, 0, 2, 3, 1, 2, 2) + (-1458) * mn(p, 2, 0, 4, 3, 1, 2, 2) + (-486) * mn(p, 1, 2, 3, 3, 1, 2, 2) + (486) * mn(p, 1, 0, 5, 3, 1, 2, 3));
    lemma_tm(p, 81, 1, 0, 2, 2, 3, 1, 2, -1, 3, 0, 0, 0, 0, 0, 0);
    assert(t7 * s0 == (-81) * mn(p, 4, 0, 2, 2, 3, 1, 2));
    lemma_tm(p, 81, 1, 0, 2, 2, 3, 1, 2, 3, 1, 0, 2, 0, 0, 0, 0);
    assert(t7 * s1 == (243) * mn(p, 2, 0, 4, 2, 3, 1, 2));
    lemma_tm(p, 81, 1, 0, 2, 2, 3, 1, 2, 1, 0, 2, 1, 0, 0, 0, 0);
    assert(t7 * s2 == (81) * mn(p, 1, 2, 3, 2, 3, 1, 2));
    lemma_tm(p, 81, 1, 0, 2, 2, 3, 1, 2, -1, 0, 0, 3, 0, 0, 0, 1);
    assert(t7 * s3 == (-81) * mn(p, 1, 0, 5, 2, 3, 1, 3));
    assert(t7 * q == (-81) * mn(p, 4, 0, 2, 2, 3, 1, 2) + (243) * mn(p, 2, 0, 4, 2, 3, 1, 2) + (81) * mn(p, 1, 2, 3, 2, 3, 1, 2) + (-81) * mn(p, 1, 0, 5, 2, 3, 1, 3));
    lemma_tm(p, 648, 1, 0, 2, 2, 3, 1, 0, -1, 3, 0, 0, 0, 0, 0, 0);
    assert(t8 * s0 == (-648) * mn(p, 4, 0, 2, 2, 3, 1, 0));
    lemma_tm(p, 648, 1, 0, 2, 2, 3, 1, 0, 3, 1, 0, 2, 0, 0, 0, 0);
    assert(t8 * s1 == (1944) * mn(p, 2, 0, 4, 2, 3, 1, 0));
    lemma_tm(p, 648, 1, 0, 2, 2, 3, 1, 0, 1, 0, 2, 1, 0, 0, 0, 0);
    assert(t8 * s2 == (648) * mn(p, 1, 2, 3, 2, 3, 1, 0));
    lemma_tm(p, 648, 1, 0, 2, 2, 3, 1, 0, -1, 0, 0, 3, 0, 0, 0, 1);
    assert(t8 * s3 == (-648) * mn(p, 1, 0, 5, 2, 3, 1, 1));
    assert(t8 * q == (-648) * mn(p, 4, 0, 2, 2, 3, 1, 0) + (1944) * mn(p, 2, 0, 4, 2, 3, 1, 0) + (648) * mn(p, 1, 2, 3, 2, 3, 1, 0) + (-648) * mn(p, 1, 0, 5, 2, 3, 1, 1));
    lemma_tm(p, 243, 1, 0, 2, 2, 1, 3, 3, -1, 3, 0, 0, 0, 0, 0, 0);
    assert(t9 * s0 == (-243) * mn(p, 4, 0, 2, 2, 1, 3, 3));
    lemma_tm(p, 243, 1, 0, 2, 2, 1, 3, 3, 3, 1, 0, 2, 0, 0, 0, 0);
    assert(t9 * s1 == (729) * mn(p, 2, 0, 4, 2, 1, 3, 3));
    lemma_tm(p, 243, 1, 0, 2, 2, 1, 3, 3, 1, 0, 2, 1, 0, 0, 0, 0);
    assert(t9 * s2 == (243) * mn(p, 1, 2, 3, 2, 1, 3, 3));
    lemma_tm(p, 243, 1, 0, 2, 2, 1, 3, 3, -1, 0, 0, 3, 0, 0, 0, 1);
    assert(t9 * s3 == (-243) * mn(p, 1, 0, 5, 2, 1, 3, 4));
    assert(t9 * q == (-243) * mn(p, 4, 0, 2, 2, 1, 3, 3) + (729) * mn(p, 2, 0, 4, 2, 1, 3, 3) + (243) * mn(p, 1, 2, 3, 2, 1, 3, 3) + (-243) * mn(p, 1, 0, 5, 2, 1, 3, 4));
    lemma_tm(p, -4374, 1, 0, 2, 2, 1, 3, 1, -1, 3, 0, 0, 0, 0, 0, 0);
    assert(t10 * s0 == (4374) * mn(p, 4, 0, 2, 2, 1, 3, 1));
    lemma_tm(p, -4374, 1, 0, 2, 2, 1, 3, 1, 3, 1, 0, 2, 0, 0, 0, 0);
    assert(t10 * s1 == (-13122) * mn(p, 2, 0, 4, 2, 1, 3, 1));
    lemma_tm(p, -4374, 1, 0, 2, 2, 1, 3, 1, 1, 0, 2, 1, 0, 0, 0, 0);
    assert(t10 * s2 == (-4374) * mn(p, 1, 2, 3, 2, 1, 3, 1));
    lemma_tm(p, -4374, 1, 0, 2, 2, 1, 3, 1, -1, 0, 0, 3, 0, 0, 0, 1);
    assert(t10 * s3 == (4374) * mn(p, 1, 0, 5, 2, 1, 3, 2));
    assert(t10 * q == (4374) * mn(p, 4, 0, 2, 2, 1, 3, 1) + (-13122) * mn(p, 2, 0, 4, 2, 1, 3, 1) + (-4374) * mn(p, 1, 2, 3, 2, 1, 3, 1) + (4374) * mn(p, 1, 0, 5, 2, 1, 3, 2));
    lemma_tm(p, -1215, 1, 0, 2, 1, 3, 2, 1, -1, 3, 0, 0, 0, 0, 0, 0);
    assert(t11 * s0 == (1215) * mn(p, 4, 0, 2, 1, 3, 2, 1));
    lemma_tm(p, -1215, 1, 0, 2, 1, 3, 2, 1, 3, 1, 0, 2, 0, 0, 0, 0);
    assert(t11 * s1 == (-3645) * mn(p, 2, 0, 4, 1, 3, 2, 1));
    lemma_tm(p, -1215, 1, 0, 2, 1, 3, 2, 1, 1, 0, 2, 1, 0, 0, 0, 0);
    assert(t11 * s2 == (-1215) * mn(p, 1, 2, 3, 1, 3, 2, 1));
    lemma_tm(p, -1215, 1, 0, 2, 1, 3, 2, 1, -1, 0, 0, 3, 0, 0, 0, 1);
    assert(t11 * s3 == (1215) * mn(p, 1, 0, 5, 1, 3, 2, 2));
    assert(t11 * q == (1215) * mn(p, 4, 0, 2, 1, 3, 2, 1) + (-3645) * mn(p, 2, 0, 4, 1, 3, 2, 1) + (-1215) * mn(p, 1, 2, 3, 1, 3, 2, 1) + (1215) * mn(p, 1, 0, 5, 1, 3, 2, 2));
    lemma_tm(p, 729, 1, 0, 2, 1, 1, 4, 2, -1, 3, 0, 0, 0, 0, 0, 0);
    assert(t12 * s0 == (-729) * mn(p, 4, 0, 2, 1, 1, 4, 2));
    lemma_tm(p, 729, 1, 0, 2, 1, 1, 4, 2, 3, 1, 0, 2, 0, 0, 0, 0);
    assert(t12 * s1 == (2187) * mn(p, 2, 0, 4, 1, 1, 4, 2));
    lemma_tm(p, 729, 1, 0, 2, 1, 1, 4, 2, 1, 0, 2, 1, 0, 0, 0, 0);
    assert(t12 * s2 == (729) * mn(p, 1, 2, 3, 1, 1, 4, 2));
    lemma_tm(p, 729, 1, 0, 2, 1, 1, 4, 2, -1, 0, 0, 3, 0, 0, 0, 1);
    assert(t12 * s3 == (-729) * mn(p, 1, 0, 5, 1, 1, 4, 3));
    assert(t12 * q == (-729) * mn(p, 4, 0, 2, 1, 1, 4, 2) + (2187) * mn(p, 2, 0, 4, 1, 1, 4, 2) + (729) * mn(p, 1, 2, 3, 1, 1, 4, 2) + (-729) * mn(p, 1, 0, 5, 1, 1, 4, 3));
    lemma_tm(p, 4860, 1, 0, 2, 1, 1, 4, 0, -1, 3, 0, 0, 0, 0, 0, 0);
    assert(t13 * s0 == (-4860) * mn(p, 4, 0, 2, 1, 1, 4, 0));
    lemma_tm(p, 4860, 1, 0, 2, 1, 1, 4, 0, 3, 1, 0, 2, 0, 0, 0, 0);
    assert(t13 * s1 == (14580) * mn(p, 2, 0, 4, 1, 1, 4, 0));
    lemma_tm(p, 4860, 1, 0, 2, 1, 1, 4, 0, 1, 0, 2, 1, 0, 0, 0, 0);
    assert(t13 * s2 == (4860) * mn(p, 1, 2, 3, 1, 1, 4, 0));
    lemma_tm(p, 4860, 1, 0, 2, 1, 1, 4, 0, -1, 0, 0, 3, 0, 0, 0, 1);
    assert(t13 * s3 == (-4860) * mn(p, 1, 0, 5, 1, 1, 4, 1));
    assert(t13 * q == (-4860) * mn(p, 4, 0, 2, 1, 1, 4, 0) + (14580) * mn(p, 2, 0, 4, 1, 1, 4, 0) + (4860) * mn(p, 1, 2, 3, 1, 1, 4, 0) + (-4860) * mn(p, 1, 0, 5, 1, 1, 4, 1));
    lemma_tm(p, 324, 1, 0, 2, 0, 3, 3, 2, -1, 3, 0, 0, 0, 0, 0, 0);
    assert(t14 * s0 == (-324) * mn(p, 4, 0, 2, 0, 3, 3, 2));
    lemma_tm(p, 324, 1, 0, 2, 0, 3, 3, 2, 3, 1, 0, 2, 0, 0, 0, 0);
    assert(t14 * s1 == (972) * mn(p, 2, 0, 4, 0, 3, 3, 2));
    lemma_tm(p, 324, 1, 0, 2, 0, 3, 3, 2, 1, 0, 2, 1, 0, 0, 0, 0);
    assert(t14 * s2 == (324) * mn(p, 1, 2, 3, 0, 3, 3, 2));
    lemma_tm(p, 324, 1, 0, 2, 0, 3, 3, 2, -1, 0, 0, 3, 0, 0, 0, 1);
    assert(t14 * s3 == (-324) * mn(p, 1, 0, 5, 0, 3, 3, 3));
    assert(t14 * q == (-324) * mn(p, 4, 0, 2, 0, 3, 3, 2) + (972) * mn(p, 2, 0, 4, 0, 3, 3, 2) + (324) * mn(p, 1, 2, 3, 0, 3, 3, 2) + (-324) * mn(p, 1, 0, 5, 0, 3, 3, 3));
    lemma_tm(p, -1215, 1, 0, 2, 0, 1, 5, 1, -1, 3, 0, 0, 0, 0, 0, 0);
    assert(t15 * s0 == (1215) * mn(p, 4, 0, 2, 0, 1, 5, 1));
    lemma_tm(p, -1215, 1, 0, 2, 0, 1, 5, 1, 3, 1, 0, 2, 0, 0, 0, 0);
    assert(t15 * s1 == (-3645) * mn(p, 2, 0, 4, 0, 1, 5, 1));
    lemma_tm(p, -1215, 1, 0, 2, 0, 1, 5, 1, 1, 0, 2, 1, 0, 0, 0, 0);
    assert(t15 * s2 == (-1215) * mn(p, 1, 2, 3, 0, 1, 5, 1));
    lemma_tm(p, -1215, 1, 0, 2, 0, 1, 5, 1, -1, 0, 0, 3, 0, 0, 0, 1);
    assert(t15 * s3 == (1215) * mn(p, 1, 0, 5, 0, 1, 5, 2));
    assert(t15 * q == (1215) * mn(p, 4, 0, 2, 0, 1, 5, 1) + (-3645) * mn(p, 2, 0, 4, 0, 1, 5, 1) + (-1215) * mn(p, 1, 2, 3, 0, 1, 5, 1) + (1215) * mn(p, 1, 0, 5, 0, 1, 5, 2));
    lemma_tm(p, 27, 0, 3, 0, 6, 0, 0, 1, -1, 3, 0, 0, 0, 0, 0, 0);
    assert(t16 * s0 == (-27) * mn(p, 3, 3, 0, 6, 0, 0, 1));
    lemma_tm(p, 27, 0, 3, 0, 6, 0, 0, 1, 3, 1, 0, 2, 0, 0, 0, 0);
    assert(t16 * s1 == (81) * mn(p, 1, 3, 2, 6, 0, 0, 1));
    lemma_tm(p, 27, 0, 3, 0, 6, 0, 0, 1, 1, 0, 2, 1, 0, 0, 0, 0);
    assert(t16 * s2 == (27) * mn(p, 0, 5, 1, 6, 0, 0, 1));
    lemma_tm(p, 27, 0, 3, 0, 6, 0, 0, 1, -1, 0, 0, 3, 0, 0, 0, 1);
    assert(t16 * s3 == (-27) * mn(p, 0, 3, 3, 6, 0, 0, 2));
    assert(t16 * q == (-27) * mn(p, 3, 3, 0, 6, 0, 0, 1) + (81) * mn(p, 1, 3, 2, 6, 0, 0, 1) + (27) * mn(p, 0, 5, 1, 6, 0, 0, 1) + (-27) * mn(p, 0, 3, 3, 6, 0, 0, 2));
    lemma_tm(p, -162, 0, 3, 0, 5, 0, 1, 0, -1, 3, 0, 0, 0, 0, 0, 0);
    assert(t17 * s0 == (162) * mn(p, 3, 3, 0, 5, 0, 1, 0));
    lemma_tm(p, -162, 0, 3, 0, 5, 0, 1, 0, 3, 1, 0, 2, 0, 0, 0, 0);
    assert(t17 * s1 == (-486) * mn(p, 1, 3, 2, 5, 0, 1, 0));
    lemma_tm(p, -162, 0, 3, 0, 5, 0, 1, 0, 1, 0, 2, 1, 0, 0, 0, 0);
    assert(t17 * s2 == (-162) * mn(p, 0, 5, 1, 5, 0, 1, 0));
    lemma_tm(p, -162, 0, 3, 0, 5, 0, 1, 0, -1, 0, 0, 3, 0, 0, 0, 1);
    assert(t17 * s3 == (162) * mn(p, 0, 3, 3, 5, 0, 1, 1));
    assert(t17 * q == (162) * mn(p, 3, 3, 0, 5, 0, 1, 0) + (-486) * mn(p, 1, 3, 2, 5, 0, 1, 0) + (-162) * mn(p, 0, 5, 1, 5, 0, 1, 0) + (162) * mn(p, 0, 3, 3, 5, 0, 1, 1));
    lemma_tm(p, -27, 0, 3, 0, 4, 2, 0, 0, -1, 3, 0, 0, 0, 0, 0, 0);
    assert(t18 * s0 == (27) * mn(p, 3, 3, 0, 4, 2, 0, 0));
    lemma_tm(p, -27, 0, 3, 0, 4, 2, 0, 0, 3, 1, 0, 2, 0, 0, 0, 0);
    assert(t18 * s1 == (-81) * mn(p, 1, 3, 2, 4, 2, 0, 0));
    lemma_tm(p, -27, 0, 3, 0, 4, 2, 0, 0, 1, 0, 2, 1, 0, 0, 0, 0);
    assert(t18 * s2 == (-27) * mn(p, 0, 5, 1, 4, 2, 0, 0));
    lemma_tm(p, -27, 0, 3, 0, 4, 2, 0, 0, -1, 0, 0, 3, 0, 0, 0, 1);
    assert(t18 * s3 == (27) * mn(p, 0, 3, 3, 4, 2, 0, 1));
    assert(t18 * q == (27) * mn(p, 3, 3, 0, 4, 2, 0, 0) + (-81) * mn(p, 1, 3, 2, 4, 2, 0, 0) + (-27) * mn(p, 0, 5, 1, 4, 2, 0, 0) + (27) * mn(p, 0, 3, 3, 4, 2, 0, 1));
    lemma_tm(p, 540, 0, 3, 0, 3, 0, 3, 0, -1, 3, 0, 0, 0, 0, 0, 0);
    assert(t19 * s0 == (-540) * mn(p, 3, 3, 0, 3, 0, 3, 0));
    lemma_tm(p, 540, 0, 3, 0, 3, 0, 3, 0, 3, 1, 0, 2, 0, 0, 0, 0);
    assert(t19 * s1 == (1620) * mn(p, 1, 3, 2, 3, 0, 3, 0));
    lemma_tm(p, 540, 0, 3, 0, 3, 0, 3, 0, 1, 0, 2, 1, 0, 0, 0, 0);
    assert(t19 * s2 == (540) * mn(p, 0, 5, 1, 3, 0, 3, 0));
    lemma_tm(p, 540, 0, 3, 0, 3, 0, 3, 0, -1, 0, 0, 3, 0, 0, 0, 1);
    assert(t19 * s3 == (-540) * mn(p, 0, 3, 3, 3, 0, 3, 1));
    assert(t19 * q == (-540) * mn(p, 3, 3, 0, 3, 0, 3, 0) + (1620) * mn(p, 1, 3, 2, 3, 0, 3, 0) + (540) * mn(p, 0, 5, 1, 3, 0, 3, 0) + (-540) * mn(p, 0, 3, 3, 3, 0, 3, 1));
    lemma_tm(p, 162, 0, 3, 0, 2, 2, 2, 0, -1, 3, 0, 0, 0, 0, 0, 0);
    assert(t20 * s0 == (-162) * mn(p, 3, 3, 0, 2, 2, 2, 0));
    lemma_tm(p, 162, 0, 3, 0, 2, 2, 2, 0, 3, 1, 0, 2, 0, 0, 0, 0);
    assert(t20 * s1 == (486) * mn(p, 1, 3, 2, 2, 2, 2, 0));
    lemma_tm(p, 162, 0, 3, 0, 2, 2, 2, 0, 1, 0, 2, 1, 0, 0, 0, 0);
    assert(t20 * s2 == (162) * mn(p, 0, 5, 1, 2, 2, 2, 0));
    lemma_tm(p, 162, 0, 3, 0, 2, 2, 2, 0, -1, 0, 0, 3, 0, 0, 0, 1);
    assert(t20 * s3 == (-162) * mn(p, 0, 3, 3, 2, 2, 2, 1));
    assert(t20 * q == (-162) * mn(p, 3, 3, 0, 2, 2, 2, 0) + (486) * mn(p, 1, 3, 2, 2, 2, 2, 0) + (162) * mn(p, 0, 5, 1, 2, 2, 2, 0) + (-162) * mn(p, 0, 3, 3, 2, 2, 2, 1));
    lemma_tm(p, -405, 0, 3, 0, 2, 0, 4, 1, -1, 3, 0, 0, 0, 0, 0, 0);
    assert(t21 * s0 == (405) * mn(p, 3, 3, 0, 2, 0, 4, 1));
    lemma_tm(p, -405, 0, 3, 0, 2, 0, 4, 1, 3, 1, 0, 2, 0, 0, 0, 0);
    assert(t21 * s1 == (-1215) * mn(p, 1, 3, 2, 2, 0, 4, 1));
    lemma_tm(p, -405, 0, 3, 0, 2, 0, 4, 1, 1, 0, 2, 1, 0, 0, 0, 0);
    assert(t21 * s2 == (-405) * mn(p, 0, 5, 1, 2, 0, 4, 1));
    lemma_tm(p, -405, 0, 3, 0, 2, 0, 4, 1, -1, 0, 0, 3, 0, 0, 0, 1);
    assert(t21 * s3 == (405) * mn(p, 0, 3, 3, 2, 0, 4, 2));
    assert(t21 * q == (405) * mn(p, 3, 3, 0, 2, 0, 4, 1) + (-1215) * mn(p, 1, 3, 2, 2, 0, 4, 1) + (-405) * mn(p, 0, 5, 1, 2, 0, 4, 1) + (405) * mn(p, 0, 3, 3, 2, 0, 4, 2));
    lemma_tm(p, 18, 0, 3, 0, 1, 4, 1, 0, -1, 3, 0, 0, 0, 0, 0, 0);
    assert(t22 * s0 == (-18) * mn(p, 3, 3, 0, 1, 4, 1, 0));
    lemma_tm(p, 18, 0, 3, 0, 1, 4, 1, 0, 3, 1, 0, 2, 0, 0, 0, 0);
    assert(t22 * s1 == (54) * mn(p, 1, 3, 2, 1, 4, 1, 0));
    lemma_tm(p, 18, 0, 3, 0, 1, 4, 1, 0, 1, 0, 2, 1, 0, 0, 0, 0);
    assert(t22 * s2 == (18) * mn(p, 0, 5, 1, 1, 4, 1, 0));
    lemma_tm(p, 18, 0, 3, 0, 1, 4, 1, 0, -1, 0, 0, 3, 0, 0, 0, 1);
    assert(t22 * s3 == (-18) * mn(p, 0, 3, 3, 1, 4, 1, 1));
    assert(t22 * q == (-18) * mn(p, 3, 3, 0, 1, 4, 1, 0) + (54) * mn(p, 1, 3, 2, 1, 4, 1, 0) + (18) * mn(p, 0, 5, 1, 1, 4, 1, 0) + (-18) * mn(p, 0, 3, 3, 1, 4, 1, 1));
    lemma_tm(p, -108, 0, 3, 0, 1, 2, 3, 1, -1, 3, 0, 0, 0, 0, 0, 0);
    assert(t23 * s0 == (108) * mn(p, 3, 3, 0, 1, 2, 3, 1));
    lemma_tm(p, -108, 0, 3, 0, 1, 2, 3, 1, 3, 1, 0, 2, 0, 0, 0, 0);
    assert(t23 * s1 == (-324) * mn(p, 1, 3, 2, 1, 2, 3, 1));
    lemma_tm(p, -108, 0, 3, 0, 1, 2, 3, 1, 1, 0, 2, 1, 0, 0, 0, 0);
    assert(t23 * s2 == (-108) * mn(p, 0, 5, 1, 1, 2, 3, 1));
    lemma_tm(p, -108, 0, 3, 0, 1, 2, 3, 1, -1, 0, 0, 3, 0, 0, 0, 1);
    assert(t23 * s3 == (108) * mn(p, 0, 3, 3, 1, 2, 3, 2));
    assert(t23 * q == (108) * mn(p, 3, 3, 0, 1, 2, 3, 1) + (-324) * mn(p, 1, 3, 2, 1, 2, 3, 1) + (-108) * mn(p, 0, 5, 1, 1, 2, 3, 1) + (108) * mn(p, 0, 3, 3, 1, 2, 3, 2));
    lemma_tm(p, 162, 0, 3, 0, 1, 0, 5, 2, -1, 3, 0, 0, 0, 0, 0, 0);
    assert(t24 * s0 == (-162) * mn(p, 3, 3, 0, 1, 0, 5, 2));
    lemma_tm(p, 162, 0, 3, 0, 1, 0, 5, 2, 3, 1, 0, 2, 0, 0, 0, 0);
    assert(t24 * s1 == (486) * mn(p, 1, 3, 2, 1, 0, 5, 2));
    lemma_tm(p, 162, 0, 3, 0, 1, 0, 5, 2, 1, 0, 2, 1, 0, 0, 0, 0);
    assert(t24 * s2 == (162) * mn(p, 0, 5, 1, 1, 0, 5, 2));
    lemma_tm(p, 162, 0, 3, 0, 1, 0, 5, 2, -1, 0, 0, 3, 0, 0, 0, 1);
    assert(t24 * s3 == (-162) * mn(p, 0, 3, 3, 1, 0, 5, 3));
    assert(t24 * q == (-162) * mn(p, 3, 3, 0, 1, 0, 5, 2) + (486) * mn(p, 1, 3, 2, 1, 0, 5, 2) + (162) * mn(p, 0, 5, 1, 1, 0, 5, 2) + (-162) * mn(p, 0, 3, 3, 1, 0, 5, 3));
    lemma_tm(p, -162, 0, 3, 0, 1, 0, 5, 0, -1, 3, 0, 0, 0, 0, 0, 0);
    assert(t25 * s0 == (162) * mn(p, 3, 3, 0, 1, 0, 5, 0));
    lemma_tm(p, -162, 0, 3, 0, 1, 0, 5, 0, 3, 1, 0, 2, 0, 0, 0, 0);
    assert(t25 * s1 == (-486) * mn(p, 1, 3, 2, 1, 0, 5, 0));
    lemma_tm(p, -162, 0, 3, 0, 1, 0, 5, 0, 1, 0, 2, 1, 0, 0, 0, 0);
    assert(t25 * s2 == (-162) * mn(p, 0, 5, 1, 1, 0, 5, 0));
    lemma_tm(p, -162, 0, 3, 0, 1, 0, 5, 0, -1, 0, 0, 3, 0, 0, 0, 1);
    assert(t25 * s3 == (162) * mn(p, 0, 3, 3, 1, 0, 5, 1));
    assert(t25 * q == (162) * mn(p, 3, 3, 0, 1, 0, 5, 0) + (-486) * mn(p, 1, 3, 2, 1, 0, 5, 0) + (-162) * mn(p, 0, 5, 1, 1, 0, 5, 0) + (162) * mn(p, 0, 3, 3, 1, 0, 5, 1));
    lemma_tm(p, 1, 0, 3, 0, 0, 6, 0, 0, -1, 3, 0, 0, 0, 0, 0, 0);
    assert(t26 * s0 == (-1) * mn(p, 3, 3, 0, 0, 6, 0, 0));
    lemma_tm(p, 1, 0, 3, 0, 0, 6, 0, 0, 3, 1, 0, 2, 0, 0, 0, 0);
    assert(t26 * s1 == (3) * mn(p, 1, 3, 2, 0, 6, 0, 0));
    lemma_tm(p, 1, 0, 3, 0, 0, 6, 0, 0, 1, 0, 2, 1, 0, 0, 0, 0);
    assert(t26 * s2 == (1) * mn(p, 0, 5, 1, 0, 6, 0, 0));
    lemma_tm(p, 1, 0, 3, 0, 0, 6, 0, 0, -1, 0, 0, 3, 0, 0, 0, 1);
    assert(t26 * s3 == (-1) * mn(p, 0, 3, 3, 0, 6, 0, 1));
    assert(t26 * q == (-1) * mn(p, 3, 3, 0, 0, 6, 0, 0) + (3) * mn(p, 1, 3, 2, 0, 6, 0, 0) + (1) * mn(p, 0, 5, 1, 0, 6, 0, 0) + (-1) * mn(p, 0, 3, 3, 0, 6, 0, 1));
    lemma_tm(p, -9, 0, 3, 0, 0, 4, 2, 1, -1, 3, 0, 0, 0, 0, 0, 0);
    assert(t27 * s0 == (9) * mn(p, 3, 3, 0, 0, 4, 2, 1));
    lemma_tm(p, -9, 0, 3, 0, 0, 4, 2, 1, 3, 1, 0, 2, 0, 0, 0, 0);
    assert(t27 * s1 == (-27) * mn(p, 1, 3, 2, 0, 4, 2, 1));
    lemma_tm(p, -9, 0, 3, 0, 0, 4, 2, 1, 1, 0, 2, 1, 0, 0, 0, 0);
    assert(t27 * s2 == (-9) * mn(p, 0, 5, 1, 0, 4, 2, 1));
    lemma_tm(p, -9, 0, 3, 0, 0, 4, 2, 1, -1, 0, 0, 3, 0, 0, 0, 1);
    assert(t27 * s3 == (9) * mn(p, 0, 3, 3, 0, 4, 2, 2));
    assert(t27 * q == (9) * mn(p, 3, 3, 0, 0, 4, 2, 1) + (-27) * mn(p, 1, 3, 2, 0, 4, 2, 1) + (-9) * mn(p, 0, 5, 1, 0, 4, 2, 1) + (9) * mn(p, 0, 3, 3, 0, 4, 2, 2));
    lemma_tm(p, 27, 0, 3, 0, 0, 2, 4, 2, -1, 3, 0, 0, 0, 0, 0, 0);
    assert(t28 * s0 == (-27) * mn(p, 3, 3, 0, 0, 2, 4, 2));
    lemma_tm(p, 27, 0, 3, 0, 0, 2, 4, 2, 3, 1, 0, 2, 0, 0, 0, 0);
    assert(t28 * s1 == (81) * mn(p, 1, 3, 2, 0, 2, 4, 2));
    lemma_tm(p, 27, 0, 3, 0, 0, 2, 4, 2, 1, 0, 2, 1, 0, 0, 0, 0);
    assert(t28 * s2 == (27) * mn(p, 0, 5, 1, 0, 2, 4, 2));
    lemma_tm(p, 27, 0, 3, 0, 0, 2, 4, 2, -1, 0, 0, 3, 0, 0, 0, 1);
    assert(t28 * s3 == (-27) * mn(p, 0, 3, 3, 0, 2, 4, 3));
    assert(t28 * q == (-27) * mn(p, 3, 3, 0, 0, 2, 4, 2) + (81) * mn(p, 1, 3, 2, 0, 2, 4, 2) + (27) * mn(p, 0, 5, 1, 0, 2, 4, 2) + (-27) * mn(p, 0, 3, 3, 0, 2, 4, 3));
    lemma_tm(p, -27, 0, 3, 0, 0, 2, 4, 0, -1, 3, 0, 0, 0, 0, 0, 0);
    assert(t29 * s0 == (27) * mn(p, 3, 3, 0, 0, 2, 4, 0));
    lemma_tm(p, -27, 0, 3, 0, 0, 2, 4, 0, 3, 1, 0, 2, 0, 0, 0, 0);
    assert(t29 * s1 == (-81) * mn(p, 1, 3, 2, 0, 2, 4, 0));
    lemma_tm(p, -27, 0, 3, 0, 0, 2, 4, 0, 1, 0, 2, 1, 0, 0, 0, 0);
    assert(t29 * s2 == (-27) * mn(p, 0, 5, 1, 0, 2, 4, 0));
    lemma_tm(p, -27, 0, 3, 0, 0, 2, 4, 0, -1, 0, 0, 3, 0, 0, 0, 1);
    assert(t29 * s3 == (27) * mn(p, 0, 3, 3, 0, 2, 4, 1));
    assert(t29 * q == (27) * mn(p, 3, 3, 0, 0, 2, 4, 0) + (-81) * mn(p, 1, 3, 2, 0, 2, 4, 0) + (-27) * mn(p, 0, 5, 1, 0, 2, 4, 0) + (27) * mn(p, 0, 3, 3, 0, 2, 4, 1));
    lemma_tm(p, -27, 0, 3, 0, 0, 0, 6, 3, -1, 3, 0, 0, 0, 0, 0, 0);
    assert(t30 * s0 == (27) * mn(p, 3, 3, 0, 0, 0, 6, 3));
    lemma_tm(p, -27, 0, 3, 0, 0, 0, 6, 3, 3, 1, 0, 2, 0, 0, 0, 0);
    assert(t30 * s1 == (-81) * mn(p, 1, 3, 2, 0, 0, 6, 3));
    lemma_tm(p, -27, 0, 3, 0, 0, 0, 6, 3, 1, 0, 2, 1, 0, 0, 0, 0);
    assert(t30 * s2 == (-27) * mn(p, 0, 5, 1, 0, 0, 6, 3));
    lemma_tm(p, -27, 0, 3, 0, 0, 0, 6, 3, -1, 0, 0, 3, 0, 0, 0, 1);
    assert(t30 * s3 == (27) * mn(p, 0, 3, 3, 0, 0, 6, 4));
    assert(t30 * q == (27) * mn(p, 3, 3, 0, 0, 0, 6, 3) + (-81) * mn(p, 1, 3, 2, 0, 0, 6, 3) + (-27) * mn(p, 0, 5, 1, 0, 0, 6, 3) + (27) * mn(p, 0, 3, 3, 0, 0, 6, 4));
    lemma_tm(p, 54, 0, 3, 0, 0, 0, 6, 1, -1, 3, 0, 0, 0, 0, 0, 0);
    assert(t31 * s0 == (-54) * mn(p, 3, 3, 0, 0, 0, 6, 1));
    lemma_tm(p, 54, 0, 3, 0, 0, 0, 6, 1, 3, 1, 0, 2, 0, 0, 0, 0);
    assert(t31 * s1 == (162) * mn(p, 1, 3, 2, 0, 0, 6, 1));
    lemma_tm(p, 54, 0, 3, 0, 0, 0, 6, 1, 1, 0, 2, 1, 0, 0, 0, 0);
    assert(t31 * s2 == (54) * mn(p, 0, 5, 1, 0, 0, 6, 1));
    lemma_tm(p, 54, 0, 3, 0, 0, 0, 6, 1, -1, 0, 0, 3, 0, 0, 0, 1);
    assert(t31 * s3 == (-54) * mn(p, 0, 3, 3, 0, 0, 6, 2));
    assert(t31 * q == (-54) * mn(p, 3, 3, 0, 0, 0, 6, 1) + (162) * mn(p, 1, 3, 2, 0, 0, 6, 1) + (54) * mn(p, 0, 5, 1, 0, 0, 6, 1) + (-54) * mn(p, 0, 3, 3, 0, 0, 6, 2));
    assert(pp31 * q == (((((((162) * mn(p, 4, 1, 1, 0, 2, 4, 0) + ((729) * mn(p, 4, 1, 1, 0, 0, 6, 1) + (243) * mn(p, 4, 0, 2, 5, 1, 0, 2))) + (((972) * mn(p, 4, 0, 2, 5, 1, 0, 0) + (-2673) * mn(p, 4, 0, 2, 4, 1, 1, 1)) + ((-81) * mn(p, 4, 0, 2, 3, 3, 0, 1) + (486) * mn(p, 4, 0, 2, 3, 1, 2, 2)))) + ((((-81) * mn(p, 4, 0, 2, 2, 3, 1, 2) + (-648) * mn(p, 4, 0, 2, 2, 3, 1, 0)) + ((-243) * mn(p, 4, 0, 2, 2, 1, 3, 3) + (4374) * mn(p, 4, 0, 2, 2, 1, 3, 1))) + (((1215) * mn(p, 4, 0, 2, 1, 3, 2, 1) + (-729) * mn(p, 4, 0, 2, 1, 1, 4, 2)) + ((-4860) * mn(p, 4, 0, 2, 1, 1, 4, 0) + (-324) * mn(p, 4, 0, 2, 0, 3, 3, 2))))) + (((((1215) * mn(p, 4, 0, 2, 0, 1, 5, 1) + (-27) * mn(p, 3, 3, 0, 6, 0, 0, 1)) + ((162) * mn(p, 3, 3, 0, 5, 0, 1, 0) + (27) * mn(p, 3, 3, 0, 4, 2, 0, 0))) + (((-540) * mn(p, 3, 3, 0, 3, 0, 3, 0) + (-162) * mn(p, 3, 3, 0, 2, 2, 2, 0)) + ((405) * mn(p, 3, 3, 0, 2, 0, 4, 1) + (-18) * mn(p, 3, 3, 0, 1, 4, 1, 0)))) + ((((108) * mn(p, 3, 3, 0, 1, 2, 3, 1) + (-162) * mn(p, 3, 3, 0, 1, 0, 5, 2)) + ((162) * mn(p, 3, 3, 0, 1, 0, 5, 0) + (-1) * mn(p, 3, 3, 0, 0, 6, 0, 0))) + (((9) * mn(p, 3, 3, 0, 0, 4, 2, 1) + (-27) * mn(p, 3, 3, 0, 0, 2, 4, 2)) + ((27) * mn(p, 3, 3, 0, 0, 2, 4, 0) + (27) * mn(p, 3, 3, 0, 0, 0, 6, 3)))))) + ((((((-54) * mn(p, 3, 3, 0, 0, 0, 6, 1) + (-486) * mn(p, 2, 1, 3, 0, 2, 4, 0)) + ((-2187) * mn(p, 2, 1, 3, 0, 0, 6, 1) + (-729) * mn(p, 2, 0, 4, 5, 1, 0, 2))) + (((-2916) * mn(p, 2, 0, 4, 5, 1, 0, 0) + (8019) * mn(p, 2, 0, 4, 4, 1, 1, 1)) + ((243) * mn(p, 2, 0, 4, 3, 3, 0, 1) + (-1458) * mn(p, 2, 0, 4, 3, 1, 2, 2)))) + ((((243) * mn(p, 2, 0, 4, 2, 3, 1, 2) + (1944) * mn(p, 2, 0, 4, 2, 3, 1, 0)) + ((729) * mn(p, 2, 0, 4, 2, 1, 3, 3) + (-13122) * mn(p, 2, 0, 4, 2, 1, 3, 1))) + (((-3645) * mn(p, 2, 0, 4, 1, 3, 2, 1) + (2187) * mn(p, 2, 0, 4, 1, 1, 4, 2)) + ((14580) * mn(p, 2, 0, 4, 1, 1, 4, 0) + (972) * mn(p, 2, 0, 4, 0, 3, 3, 2))))) + (((((-3645) * mn(p, 2, 0, 4, 0, 1, 5, 1) + (81) * mn(p, 1, 3, 2, 6, 0, 0, 1)) + ((-486) * mn(p, 1, 3, 2, 5, 0, 1, 0) + (-81) * mn(p, 1, 3, 2, 4, 2, 0, 0))) + (((1620) * mn(p, 1, 3, 2, 3, 0, 3, 0) + (486) * mn(p, 1, 3, 2, 2, 2, 2, 0)) + ((-1215) * mn(p, 1, 3, 2, 2, 0, 4, 1) + (54) * mn(p, 1, 3, 2, 1, 4, 1, 0)))) + ((((-324) * mn(p, 1, 3, 2, 1, 2, 3, 1) + (486) * mn(p, 1, 3, 2, 1, 0, 5, 2)) + ((-486) * mn(p, 1, 3, 2, 1, 0, 5, 0) + (3) * mn(p, 1, 3, 2, 0, 6, 0, 0))) + (((-27) * mn(p, 1, 3, 2, 0, 4, 2, 1) + (81) * mn(p, 1, 3, 2, 0, 2, 4, 2)) + ((-243) * mn(p, 1, 3, 2, 0, 2, 4, 0) + (-81) * mn(p, 1, 3, 2, 0, 0, 6, 3))))))) + ((((((-567) * mn(p, 1, 3, 2, 0, 0, 6, 1) + ((-243) * mn(p, 1, 2, 3, 5, 1, 0, 2) + (-972) * mn(p, 1, 2, 3, 5, 1, 0, 0))) + (((2673) * mn(p, 1, 2, 3, 4, 1, 1, 1) + (81) * mn(p, 1, 2, 3, 3, 3, 0, 1)) + ((-486) * mn(p, 1, 2, 3, 3, 1, 2, 2) + (81) * mn(p, 1, 2, 3, 2, 3, 1, 2)))) + ((((648) * mn(p, 1, 2, 3, 2, 3, 1, 0) + (243) * mn(p, 1, 2, 3, 2, 1, 3, 3)) + ((-4374) * mn(p, 1, 2, 3, 2, 1, 3, 1) + (-1215) * mn(p, 1, 2, 3, 1, 3, 2, 1))) + (((729) * mn(p, 1, 2, 3, 1, 1, 4, 2) + (4860) * mn(p, 1, 2, 3, 1, 1, 4, 0)) + ((324) * mn(p, 1, 2, 3, 0, 3, 3, 2) + (-1215) * mn(p, 1, 2, 3, 0, 1, 5, 1))))) + (((((162) * mn(p, 1, 1, 4, 0, 2, 4, 1) + (729) * mn(p, 1, 1, 4, 0, 0, 6, 2)) + ((243) * mn(p, 1, 0, 5, 5, 1, 0, 3) + (972) * mn(p, 1, 0, 5, 5, 1, 0, 1))) + (((-2673) * mn(p, 1, 0, 5, 4, 1, 1, 2) + (-81) * mn(p, 1, 0, 5, 3, 3, 0, 2)) + ((486) * mn(p, 1, 0, 5, 3, 1, 2, 3) + (-81) * mn(p, 1, 0, 5, 2, 3, 1, 3)))) + ((((-648) * mn(p, 1, 0, 5, 2, 3, 1, 1) + (-243) * mn(p, 1, 0, 5, 2, 1, 3, 4)) + ((4374) * mn(p, 1, 0, 5, 2, 1, 3, 2) + (1215) * mn(p, 1, 0, 5, 1, 3, 2, 2))) + (((-729) * mn(p, 1, 0, 5, 1, 1, 4, 3) + (-4860) * mn(p, 1, 0, 5, 1, 1, 4, 1)) + ((-324) * mn(p, 1, 0, 5, 0, 3, 3, 3) + (1215) * mn(p, 1, 0, 5, 0, 1, 5, 2)))))) + ((((((27) * mn(p, 0, 5, 1, 6, 0, 0, 1) + (-162) * mn(p, 0, 5, 1, 5, 0, 1, 0)) + ((-27) * mn(p, 0, 5, 1, 4, 2, 0, 0) + (540) * mn(p, 0, 5, 1, 3, 0, 3, 0))) + (((162) * mn(p, 0, 5, 1, 2, 2, 2, 0) + (-405) * mn(p, 0, 5, 1, 2, 0, 4, 1)) + ((18) * mn(p, 0, 5, 1, 1, 4, 1, 0) + (-108) * mn(p, 0, 5, 1, 1, 2, 3, 1)))) + ((((162) * mn(p, 0, 5, 1, 1, 0, 5, 2) + (-162) * mn(p, 0, 5, 1, 1, 0, 5, 0)) + ((1) * mn(p, 0, 5, 1, 0, 6, 0, 0) + (-9) * mn(p, 0, 5, 1, 0, 4, 2, 1))) + (((27) * mn(p, 0, 5, 1, 0, 2, 4, 2) + (-27) * mn(p, 0, 5, 1, 0, 2, 4, 0)) + ((-27) * mn(p, 0, 5, 1, 0, 0, 6, 3) + (54) * mn(p, 0, 5, 1, 0, 0, 6, 1))))) + (((((-27) * mn(p, 0, 3, 3, 6, 0, 0, 2) + (162) * mn(p, 0, 3, 3, 5, 0, 1, 1)) + ((27) * mn(p, 0, 3, 3, 4, 2, 0, 1) + (-540) * mn(p, 0, 3, 3, 3, 0, 3, 1))) + (((-162) * mn(p, 0, 3, 3, 2, 2, 2, 1) + (405) * mn(p, 0, 3, 3, 2, 0, 4, 2)) + ((-18) * mn(p, 0, 3, 3, 1, 4, 1, 1) + (108) * mn(p, 0, 3, 3, 1, 2, 3, 2)))) + ((((-162) * mn(p, 0, 3, 3, 1, 0, 5, 3) + (162) * mn(p, 0, 3, 3, 1, 0, 5, 1)) + ((-1) * mn(p, 0, 3, 3, 0, 6, 0, 1) + (9) * mn(p, 0, 3, 3, 0, 4, 2, 2))) + (((-27) * mn(p, 0, 3, 3, 0, 2, 4, 3) + (27) * mn(p, 0, 3, 3, 0, 2, 4, 1)) + ((27) * mn(p, 0, 3, 3, 0, 0, 6, 4) + (-54) * mn(p, 0, 3, 3, 0, 0, 6, 2)))))))));
    assert(pp31 == ((((((-162) * mn(p, 1, 1, 1, 0, 2, 4, 0) + (-729) * mn(p, 1, 1, 1, 0, 0, 6, 1)) + ((-243) * mn(p, 1, 0, 2, 5, 1, 0, 2) + (-972) * mn(p, 1, 0, 2, 5, 1, 0, 0))) + (((2673) * mn(p, 1, 0, 2, 4, 1, 1, 1) + (81) * mn(p, 1, 0, 2, 3, 3, 0, 1)) + ((-486) * mn(p, 1, 0, 2, 3, 1, 2, 2) + (81) * mn(p, 1, 0, 2, 2, 3, 1, 2)))) + ((((648) * mn(p, 1, 0, 2, 2, 3, 1, 0) + (243) * mn(p, 1, 0, 2, 2, 1, 3, 3)) + ((-4374) * mn(p, 1, 0, 2, 2, 1, 3, 1) + (-1215) * mn(p, 1, 0, 2, 1, 3, 2, 1))) + (((729) * mn(p, 1, 0, 2, 1, 1, 4, 2) + (4860) * mn(p, 1, 0, 2, 1, 1, 4, 0)) + ((324) * mn(p, 1, 0, 2, 0, 3, 3, 2) + (-1215) * mn(p, 1, 0, 2, 0, 1, 5, 1))))) + (((((27) * mn(p, 0, 3, 0, 6, 0, 0, 1) + (-162) * mn(p, 0, 3, 0, 5, 0, 1, 0)) + ((-27) * mn(p, 0, 3, 0, 4, 2, 0, 0) + (540) * mn(p, 0, 3, 0, 3, 0, 3, 0))) + (((162) * mn(p, 0, 3, 0, 2, 2, 2, 0) + (-405) * mn(p, 0, 3, 0, 2, 0, 4, 1)) + ((18) * mn(p, 0, 3, 0, 1, 4, 1, 0) + (-108) * mn(p, 0, 3, 0, 1, 2, 3, 1)))) + ((((162) * mn(p, 0, 3, 0, 1, 0, 5, 2) + (-162) * mn(p, 0, 3, 0, 1, 0, 5, 0)) + ((1) * mn(p, 0, 3, 0, 0, 6, 0, 0) + (-9) * mn(p, 0, 3, 0, 0, 4, 2, 1))) + (((27) * mn(p, 0, 3, 0, 0, 2, 4, 2) + (-27) * mn(p, 0, 3, 0, 0, 2, 4, 0)) + ((-27) * mn(p, 0, 3, 0, 0, 0, 6, 3) + (54) * mn(p, 0, 3, 0, 0, 0, 6, 1)))))));
    assert(q == (((-1) * mn(p, 3, 0, 0, 0, 0, 0, 0) + (3) * mn(p, 1, 0, 2, 0, 0, 0, 0)) + ((1) * mn(p, 0, 2, 1, 0, 0, 0, 0) + (-1) * mn(p, 0, 0, 3, 0, 0, 0, 1))));
}

#[verifier::rlimit(100)]
proof fn acc_prod36_c3(p: Pt)
    ensures
        (((((((-567) * mn(p, 0, 2, 1, 5, 1, 0, 0) + (648) * mn(p, 0, 2, 1, 4, 1, 1, 1)) + ((27) * mn(p, 0, 2, 1, 3, 3, 0, 1) + (-243) * mn(p, 0, 2, 1, 3, 1, 2, 2))) + (((1458) * mn(p, 0, 2, 1, 3, 1, 2, 0) + (459) * mn(p, 0, 2, 1, 2, 3, 1, 0)) + ((-1782) * mn(p, 0, 2, 1, 2, 1, 3, 1) + (-540) * mn(p, 0, 2, 1, 1, 3, 2, 1)))) + ((((972) * mn(p, 0, 2, 1, 1, 1, 4, 2) + (-567) * mn(p, 0, 2, 1, 1, 1, 4, 0)) + ((-18) * mn(p, 0, 2, 1, 0, 5, 1, 1) + (108) * mn(p, 0, 2, 1, 0, 3, 3, 2))) + (((135) * mn(p, 0, 2, 1, 0, 3, 3, 0) + (-162) * mn(p, 0, 2, 1, 0, 1, 5, 3)) + ((162) * mn(p, 0, 2, 1, 0, 1, 5, 1) + (-243) * mn(p, 0, 1, 2, 6, 0, 0, 2))))) + (((((-1215) * mn(p, 0, 1, 2, 6, 0, 0, 0) + (3402) * mn(p, 0, 1, 2, 5, 0, 1, 1)) + ((405) * mn(p, 0, 1, 2, 4, 2, 0, 1) + (-486) * mn(p, 0, 1, 2, 4, 0, 2, 2))) + (((729) * mn(p, 0, 1, 2, 4, 0, 2, 0) + (972) * mn(p, 0, 1, 2, 3, 2, 1, 0)) + ((-9720) * mn(p, 0, 1, 2, 3, 0, 3, 1) + (-27) * mn(p, 0, 1, 2, 2, 4, 0, 0)))) + ((((-3888) * mn(p, 0, 1, 2, 2, 2, 2, 1) + (5346) * mn(p, 0, 1, 2, 2, 0, 4, 2)) + ((8991) * mn(p, 0, 1, 2, 2, 0, 4, 0) + (-324) * mn(p, 0, 1, 2, 1, 4, 1, 1))) + (((1944) * mn(p, 0, 1, 2, 1, 2, 3, 2) + (1620) * mn(p, 0, 1, 2, 1, 2, 3, 0)) + ((-972) * mn(p, 0, 1, 2, 1, 0, 5, 3) + (-5346) * mn(p, 0, 1, 2, 1, 0, 5, 1))))))) * ((((-1) * mn(p, 3, 0, 0, 0, 0, 0, 0) + (3) * mn(p, 1, 0, 2, 0, 0, 0, 0)) + ((1) * mn(p, 0, 2, 1, 0, 0, 0, 0) + (-1) * mn(p, 0, 0, 3, 0, 0, 0, 1)))) == ((((((((567) * mn(p, 3, 2, 1, 5, 1, 0, 0) + (-648) * mn(p, 3, 2, 1, 4, 1, 1, 1)) + ((-27) * mn(p, 3, 2, 1, 3, 3, 0, 1) + (243) * mn(p, 3, 2, 1, 3, 1, 2, 2))) + (((-1458) * mn(p, 3, 2, 1, 3, 1, 2, 0) + (-459) * mn(p, 3, 2, 1, 2, 3, 1, 0)) + ((1782) * mn(p, 3, 2, 1, 2, 1, 3, 1) + (540) * mn(p, 3, 2, 1, 1, 3, 2, 1)))) + ((((-972) * mn(p, 3, 2, 1, 1, 1, 4, 2) + (567) * mn(p, 3, 2, 1, 1, 1, 4, 0)) + ((18) * mn(p, 3, 2, 1, 0, 5, 1, 1) + (-108) * mn(p, 3, 2, 1, 0, 3, 3, 2))) + (((-135) * mn(p, 3, 2, 1, 0, 3, 3, 0) + (162) * mn(p, 3, 2, 1, 0, 1, 5, 3)) + ((-162) * mn(p, 3, 2, 1, 0, 1, 5, 1) + (243) * mn(p, 3, 1, 2, 6, 0, 0, 2))))) + (((((1215) * mn(p, 3, 1, 2, 6, 0, 0, 0) + (-3402) * mn(p, 3, 1, 2, 5, 0, 1, 1)) + ((-405) * mn(p, 3, 1, 2, 4, 2, 0, 1) + (486) * mn(p, 3, 1, 2, 4, 0, 2, 2))) + (((-729) * mn(p, 3, 1, 2, 4, 0, 2, 0) + (-972) * mn(p, 3, 1, 2, 3, 2, 1, 0)) + ((9720) * mn(p, 3, 1, 2, 3, 0, 3, 1) + (27) * mn(p, 3, 1, 2, 2, 4, 0, 0)))) + ((((3888) * mn(p, 3, 1, 2, 2, 2, 2, 1) + (-5346) * mn(p, 3, 1, 2, 2, 0, 4, 2)) + ((-8991) * mn(p, 3, 1, 2, 2, 0, 4, 0) + (324) * mn(p, 3, 1, 2, 1, 4, 1, 1))) + (((-1944) * mn(p, 3, 1, 2, 1, 2, 3, 2) + (-1620) * mn(p, 3, 1, 2, 1, 2, 3, 0)) + ((972) * mn(p, 3, 1, 2, 1, 0, 5, 3) + (5346) * mn(p, 3, 1, 2, 1, 0, 5, 1)))))) + ((((((-1701) * mn(p, 1, 2, 3, 5, 1, 0, 0) + (1944) * mn(p, 1, 2, 3, 4, 1, 1, 1)) + ((81) * mn(p, 1, 2, 3, 3, 3, 0, 1) + (-729) * mn(p, 1, 2, 3, 3, 1, 2, 2))) + (((4374) * mn(p, 1, 2, 3, 3, 1, 2, 0) + (1377) * mn(p, 1, 2, 3, 2, 3, 1, 0)) + ((-5346) * mn(p, 1, 2, 3, 2, 1, 3, 1) + (-1620) * mn(p, 1, 2, 3, 1, 3, 2, 1)))) + ((((2916) * mn(p, 1, 2, 3, 1, 1, 4, 2) + (-1701) * mn(p, 1, 2, 3, 1, 1, 4, 0)) + ((-54) * mn(p, 1, 2, 3, 0, 5, 1, 1) + (324) * mn(p, 1, 2, 3, 0, 3, 3, 2))) + (((405) * mn(p, 1, 2, 3, 0, 3, 3, 0) + (-486) * mn(p, 1, 2, 3, 0, 1, 5, 3)) + ((486) * mn(p, 1, 2, 3, 0, 1, 5, 1) + (-729) * mn(p, 1, 1, 4, 6, 0, 0, 2))))) + (((((-3645) * mn(p, 1, 1, 4, 6, 0, 0, 0) + (10206) * mn(p, 1, 1, 4, 5, 0, 1, 1)) + ((1215) * mn(p, 1, 1, 4, 4, 2, 0, 1) + (-1458) * mn(p, 1, 1, 4, 4, 0, 2, 2))) + (((2187) * mn(p, 1, 1, 4, 4, 0, 2, 0) + (2916) * mn(p, 1, 1, 4, 3, 2, 1, 0)) + ((-29160) * mn(p, 1, 1, 4, 3, 0, 3, 1) + (-81) * mn(p, 1, 1, 4, 2, 4, 0, 0)))) + ((((-11664) * mn(p, 1, 1, 4, 2, 2, 2, 1) + (16038) * mn(p, 1, 1, 4, 2, 0, 4, 2)) + ((26973) * mn(p, 1, 1, 4, 2, 0, 4, 0) + (-972) * mn(p, 1, 1, 4, 1, 4, 1, 1))) + (((5832) * mn(p, 1, 1, 4, 1, 2, 3, 2) + (4860) * mn(p, 1, 1, 4, 1, 2, 3, 0)) + ((-2916) * mn(p, 1, 1, 4, 1, 0, 5, 3) + (-16038) * mn(p, 1, 1, 4, 1, 0, 5, 1))))))) + (((((((-567) * mn(p, 0, 4, 2, 5, 1, 0, 0) + (648) * mn(p, 0, 4, 2, 4, 1, 1, 1)) + ((27) * mn(p, 0, 4, 2, 3, 3, 0, 1) + (-243) * mn(p, 0, 4, 2, 3, 1, 2, 2))) + (((1458) * mn(p, 0, 4, 2, 3, 1, 2, 0) + (459) * mn(p, 0, 4, 2, 2, 3, 1, 0)) + ((-1782) * mn(p, 0, 4, 2, 2, 1, 3, 1) + (-540) * mn(p, 0, 4, 2, 1, 3, 2, 1)))) + ((((972) * mn(p, 0, 4, 2, 1, 1, 4, 2) + (-567) * mn(p, 0, 4, 2, 1, 1, 4, 0)) + ((-18) * mn(p, 0, 4, 2, 0, 5, 1, 1) + (108) * mn(p, 0, 4, 2, 0, 3, 3, 2))) + (((135) * mn(p, 0, 4, 2, 0, 3, 3, 0) + (-162) * mn(p, 0, 4, 2, 0, 1, 5, 3)) + ((162) * mn(p, 0, 4, 2, 0, 1, 5, 1) + (-243) * mn(p, 0, 3, 3, 6, 0, 0, 2))))) + (((((-1215) * mn(p, 0, 3, 3, 6, 0, 0, 0) + (3402) * mn(p, 0, 3, 3, 5, 0, 1, 1)) + ((405) * mn(p, 0, 3, 3, 4, 2, 0, 1) + (-486) * mn(p, 0, 3, 3, 4, 0, 2, 2))) + (((729) * mn(p, 0, 3, 3, 4, 0, 2, 0) + (972) * mn(p, 0, 3, 3, 3, 2, 1, 0)) + ((-9720) * mn(p, 0, 3, 3, 3, 0, 3, 1) + (-27) * mn(p, 0, 3, 3, 2, 4, 0, 0)))) + ((((-3888) * mn(p, 0, 3, 3, 2, 2, 2, 1) + (5346) * mn(p, 0, 3, 3, 2, 0, 4, 2)) + ((8991) * mn(p, 0, 3, 3, 2, 0, 4, 0) + (-324) * mn(p, 0, 3, 3, 1, 4, 1, 1))) + (((1944) * mn(p, 0, 3, 3, 1, 2, 3, 2) + (1620) * mn(p, 0, 3, 3, 1, 2, 3, 0)) + ((-972) * mn(p, 0, 3, 3, 1, 0, 5, 3) + (-5346) * mn(p, 0, 3, 3, 1, 0, 5, 1)))))) + ((((((567) * mn(p, 0, 2, 4, 5, 1, 0, 1) + (-648) * mn(p, 0, 2, 4, 4, 1, 1, 2)) + ((-27) * mn(p, 0, 2, 4, 3, 3, 0, 2) + (243) * mn(p, 0, 2, 4, 3, 1, 2, 3))) + (((-1458) * mn(p, 0, 2, 4, 3, 1, 2, 1) + (-459) * mn(p, 0, 2, 4, 2, 3, 1, 1)) + ((1782) * mn(p, 0, 2, 4, 2, 1, 3, 2) + (540) * mn(p, 0, 2, 4, 1, 3, 2, 2)))) + ((((-972) * mn(p, 0, 2, 4, 1, 1, 4, 3) + (567) * mn(p, 0, 2, 4, 1, 1, 4, 1)) + ((18) * mn(p, 0, 2, 4, 0, 5, 1, 2) + (-108) * mn(p, 0, 2, 4, 0, 3, 3, 3))) + (((-135) * mn(p, 0, 2, 4, 0, 3, 3, 1) + (162) * mn(p, 0, 2, 4, 0, 1, 5, 4)) + ((-162) * mn(p, 0, 2, 4, 0, 1, 5, 2) + (243) * mn(p, 0, 1, 5, 6, 0, 0, 3))))) + (((((1215) * mn(p, 0, 1, 5, 6, 0, 0, 1) + (-3402) * mn(p, 0, 1, 5, 5, 0, 1, 2)) + ((-405) * mn(p, 0, 1, 5, 4, 2, 0, 2) + (486) * mn(p, 0, 1, 5, 4, 0, 2, 3))) + (((-729) * mn(p, 0, 1, 5, 4, 0, 2, 1) + (-972) * mn(p, 0, 1, 5, 3, 2, 1, 1)) + ((9720) * mn(p, 0, 1, 5, 3, 0, 3, 2) + (27) * mn(p, 0, 1, 5, 2, 4, 0, 1)))) + ((((3888) * mn(p, 0, 1, 5, 2, 2, 2, 2) + (-5346) * mn(p, 0, 1, 5, 2, 0, 4, 3)) + ((-8991) * mn(p, 0, 1, 5, 2, 0, 4, 1) + (324) * mn(p, 0, 1, 5, 1, 4, 1, 2))) + (((-1944) * mn(p, 0, 1, 5, 1, 2, 3, 3) + (-1620) * mn(p, 0, 1, 5, 1, 2, 3, 1)) + ((972) * mn(p, 0, 1, 5, 1, 0, 5, 4) + (5346) * mn(p, 0, 1, 5, 1, 0, 5, 2)))))))),
{
    let t0 = (-567) * mn(p, 0, 2, 1, 5, 1, 0, 0);
    let t1 = (648) * mn(p, 0, 2, 1, 4, 1, 1, 1);
    let t2 = (27) * mn(p, 0, 2, 1, 3, 3, 0, 1);
    let t3 = (-243) * mn(p, 0, 2, 1, 3, 1, 2, 2);
    let t4 = (1458) * mn(p, 0, 2, 1, 3, 1, 2, 0);
    let t5 = (459) * mn(p, 0, 2, 1, 2, 3, 1, 0);
    let t6 = (-1782) * mn(p, 0, 2, 1, 2, 1, 3, 1);
    let t7 = (-540) * mn(p, 0, 2, 1, 1, 3, 2, 1);
    let t8 = (972) * mn(p, 0, 2, 1, 1, 1, 4, 2);
    let t9 = (-567) * mn(p, 0, 2, 1, 1, 1, 4, 0);
    let t10 = (-18) * mn(p, 0, 2, 1, 0, 5, 1, 1);
    let t11 = (108) * mn(p, 0, 2, 1, 0, 3, 3, 2);
    let t12 = (135) * mn(p, 0, 2, 1, 0, 3, 3, 0);
    let t13 = (-162) * mn(p, 0, 2, 1, 0, 1, 5, 3);
    let t14 = (162) * mn(p, 0, 2, 1, 0, 1, 5, 1);
    let t15 = (-243) * mn(p, 0, 1, 2, 6, 0, 0, 2);
    let t16 = (-1215) * mn(p, 0, 1, 2, 6, 0, 0, 0);
    let t17 = (3402) * mn(p, 0, 1, 2, 5, 0, 1, 1);
    let t18 = (405) * mn(p, 0, 1, 2, 4, 2, 0, 1);
    let t19 = (-486) * mn(p, 0, 1, 2, 4, 0, 2, 2);
    let t20 = (729) * mn(p, 0, 1, 2, 4, 0, 2, 0);
    let t21 = (972) * mn(p, 0, 1, 2, 3, 2, 1, 0);
    let t22 = (-9720) * mn(p, 0, 1, 2, 3, 0, 3, 1);
    let t23 = (-27) * mn(p, 0, 1, 2, 2, 4, 0, 0);
    let t24 = (-3888) * mn(p, 0, 1, 2, 2, 2, 2, 1);
    let t25 = (5346) * mn(p, 0, 1, 2, 2, 0, 4, 2);
    let t26 = (8991) * mn(p, 0, 1, 2, 2, 0, 4, 0);
    let t27 = (-324) * mn(p, 0, 1, 2, 1, 4, 1, 1);
    let t28 = (1944) * mn(p, 0, 1, 2, 1, 2, 3, 2);
    let t29 = (1620) * mn(p, 0, 1, 2, 1, 2, 3, 0);
    let t30 = (-972) * mn(p, 0, 1, 2, 1, 0, 5, 3);
    let t31 = (-5346) * mn(p, 0, 1, 2, 1, 0, 5, 1);
    let s0 = (-1) * mn(p, 3, 0, 0, 0, 0, 0, 0);
    let s1 = (3) * mn(p, 1, 0, 2, 0, 0, 0, 0);
    let s2 = (1) * mn(p, 0, 2, 1, 0, 0, 0, 0);
    let s3 = (-1) * mn(p, 0, 0, 3, 0, 0, 0, 1);
    let pp0 = t0;
    let pp1 = pp0 + t1;
    let pp2 = pp1 + t2;
    let pp3 = pp2 + t3;
    let pp4 = pp3 + t4;
    let pp5 = pp4 + t5;
    let pp6 = pp5 + t6;
    let pp7 = pp6 + t7;
    let pp8 = pp7 + t8;
    let pp9 = pp8 + t9;
    let pp10 = pp9 + t10;
    let pp11 = pp10 + t11;
    let pp12 = pp11 + t12;
    let pp13 = pp12 + t13;
    let pp14 = pp13 + t14;
    let pp15 = pp14 + t15;
    let pp16 = pp15 + t16;
    let pp17 = pp16 + t17;
    let pp18 = pp17 + t18;
    let pp19 = pp18 + t19;
    let pp20 = pp19 + t20;
    let pp21 = pp20 + t21;
    let pp22 = pp21 + t22;
    let pp23 = pp22 + t23;
    let pp24 = pp23 + t24;
    let pp25 = pp24 + t25;
    let pp26 = pp25 + t26;
    let pp27 = pp26 + t27;
    let pp28 = pp27 + t28;
    let pp29 = pp28 + t29;
    let pp30 = pp29 + t30;
    let pp31 = pp30 + t31;
    let qq0 = s0;
    let qq1 = qq0 + s1;
    let qq2 = qq1 + s2;
    let qq3 = qq2 + s3;
    let q = qq3;
    lemma_mul_is_distributive_add_other_way(q, pp0, t1);
    lemma_mul_is_distributive_add_other_way(q, pp1, t2);
    lemma_mul_is_distributive_add_other_way(q, pp2, t3);
    lemma_mul_is_distributive_add_other_way(q, pp3, t4);
    lemma_mul_is_distributive_add_other_way(q, pp4, t5);
    lemma_mul_is_distributive_add_other_way(q, pp5, t6);
    lemma_mul_is_distributive_add_other_way(q, pp6, t7);
    lemma_mul_is_distributive_add_other_way(q, pp7, t8);
    lemma_mul_is_distributive_add_other_way(q, pp8, t9);
    lemma_mul_is_distributive_add_other_way(q, pp9, t10);
    lemma_mul_is_distributive_add_other_way(q, pp10, t11);
    lemma_mul_is_distributive_add_other_way(q, pp11, t12);
    lemma_mul_is_distributive_add_other_way(q, pp12, t13);
    lemma_mul_is_distributive_add_other_way(q, pp13, t14);
    lemma_mul_is_distributive_add_other_way(q, pp14, t15);
    lemma_mul_is_distributive_add_other_way(q, pp15, t16);
    lemma_mul_is_distributive_add_other_way(q, pp16, t17);
    lemma_mul_is_distributive_add_other_way(q, pp17, t18);
    lemma_mul_is_distributive_add_other_way(q, pp18, t19);
    lemma_mul_is_distributive_add_other_way(q, pp19, t20);
    lemma_mul_is_distributive_add_other_way(q, pp20, t21);
    lemma_mul_is_distributive_add_other_way(q, pp21, t22);
    lemma_mul_is_distributive_add_other_way(q, pp22, t23);
    lemma_mul_is_distributive_add_other_way(q, pp23, t24);
    lemma_mul_is_distributive_add_other_way(q, pp24, t25);
    lemma_mul_is_distributive_add_other_way(q, pp25, t26);
    lemma_mul_is_distributive_add_other_way(q, pp26, t27);
    lemma_mul_is_distributive_add_other_way(q, pp27, t28);
    lemma_mul_is_distributive_add_other_way(q, pp28, t29);
    lemma_mul_is_distributive_add_other_way(q, pp29, t30);
    lemma_mul_is_distributive_add_other_way(q, pp30, t31);
    lemma_mul_is_distributive_add(t0, qq0, s1);
    lemma_mul_is_distributive_add(t0, qq1, s2);
    lemma_mul_is_distributive_add(t0, qq2, s3);
    lemma_mul_is_distributive_add(t1, qq0, s1);
    lemma_mul_is_distributive_add(t1, qq1, s2);
    lemma_mul_is_distributive_add(t1, qq2, s3);
    lemma_mul_is_distributive_add(t2, qq0, s1);
    lemma_mul_is_distributive_add(t2, qq1, s2);
    lemma_mul_is_distributive_add(t2, qq2, s3);
    lemma_mul_is_distributive_add(t3, qq0, s1);
    lemma_mul_is_distributive_add(t3, qq1, s2);
    lemma_mul_is_distributive_add(t3, qq2, s3);
    lemma_mul_is_distributive_add(t4, qq0, s1);
    lemma_mul_is_distributive_add(t4, qq1, s2);
    lemma_mul_is_distributive_add(t4, qq2, s3);
    lemma_mul_is_distributive_add(t5, qq0, s1);
    lemma_mul_is_distributive_add(t5, qq1, s2);
    lemma_mul_is_distributive_add(t5, qq2, s3);
    lemma_mul_is_distributive_add(t6, qq0, s1);
    lemma_mul_is_distributive_add(t6, qq1, s2);
    lemma_mul_is_distributive_add(t6, qq2, s3);
    lemma_mul_is_distributive_add(t7, qq0, s1);
    lemma_mul_is_distributive_add(t7, qq1, s2);
    lemma_mul_is_distributive_add(t7, qq2, s3);
    lemma_mul_is_distributive_add(t8, qq0, s1);
    lemma_mul_is_distributive_add(t8, qq1, s2);
    lemma_mul_is_distributive_add(t8, qq2, s3);
    lemma_mul_is_distributive_add(t9, qq0, s1);
    lemma_mul_is_distributive_add(t9, qq1, s2);
    lemma_mul_is_distributive_add(t9, qq2, s3);
    lemma_mul_is_distributive_add(t10, qq0, s1);
    lemma_mul_is_distributive_add(t10, qq1, s2);
    lemma_mul_is_distributive_add(t10, qq2, s3);
    lemma_mul_is_distributive_add(t11, qq0, s1);
    lemma_mul_is_distributive_add(t11, qq1, s2);
    lemma_mul_is_distributive_add(t11, qq2, s3);
    lemma_mul_is_distributive_add(t12, qq0, s1);
    lemma_mul_is_distributive_add(t12, qq1, s2);
    lemma_mul_is_distributive_add(t12, qq2, s3);
    lemma_mul_is_distributive_add(t13, qq0, s1);
    lemma_mul_is_distributive_add(t13, qq1, s2);
    lemma_mul_is_distributive_add(t13, qq2, s3);
    lemma_mul_is_distributive_add(t14, qq0, s1);
    lemma_mul_is_distributive_add(t14, qq1, s2);
    lemma_mul_is_distributive_add(t14, qq2, s3);
    lemma_mul_is_distributive_add(t15, qq0, s1);
    lemma_mul_is_distributive_add(t15, qq1, s2);
    lemma_mul_is_distributive_add(t15, qq2, s3);
    lemma_mul_is_distributive_add(t16, qq0, s1);
    lemma_mul_is_distributive_add(t16, qq1, s2);
    lemma_mul_is_distributive_add(t16, qq2, s3);
    lemma_mul_is_distributive_add(t17, qq0, s1);
    lemma_mul_is_distributive_add(t17, qq1, s2);
    lemma_mul_is_distributive_add(t17, qq2, s3);
    lemma_mul_is_distributive_add(t18, qq0, s1);
    lemma_mul_is_distributive_add(t18, qq1, s2);
    lemma_mul_is_distributive_add(t18, qq2, s3);
    lemma_mul_is_distributive_add(t19, qq0, s1);
    lemma_mul_is_distributive_add(t19, qq1, s2);
    lemma_mul_is_distributive_add(t19, qq2, s3);
    lemma_mul_is_distributive_add(t20, qq0, s1);
    lemma_mul_is_distributive_add(t20, qq1, s2);
    lemma_mul_is_distributive_add(t20, qq2, s3);
    lemma_mul_is_distributive_add(t21, qq0, s1);
    lemma_mul_is_distributive_add(t21, qq1, s2);
    lemma_mul_is_distributive_add(t21, qq2, s3);
    lemma_mul_is_distributive_add(t22, qq0, s1);
    lemma_mul_is_distributive_add(t22, qq1, s2);
    lemma_mul_is_distributive_add(t22, qq2, s3);
    lemma_mul_is_distributive_add(t23, qq0, s1);
    lemma_mul_is_distributive_add(t23, qq1, s2);
    lemma_mul_is_distributive_add(t23, qq2, s3);
    lemma_mul_is_distributive_add(t24, qq0, s1);
    lemma_mul_is_distributive_add(t24, qq1, s2);
    lemma_mul_is_distributive_add(t24, qq2, s3);
    lemma_mul_is_distributive_add(t25, qq0, s1);
    lemma_mul_is_distributive_add(t25, qq1, s2);
    lemma_mul_is_distributive_add(t25, qq2, s3);
    lemma_mul_is_distributive_add(t26, qq0, s1);
    lemma_mul_is_distributive_add(t26, qq1, s2);
    lemma_mul_is_distributive_add(t26, qq2, s3);
    lemma_mul_is_distributive_add(t27, qq0, s1);
    lemma_mul_is_distributive_add(t27, qq1, s2);
    lemma_mul_is_distributive_add(t27, qq2, s3);
    lemma_mul_is_distributive_add(t28, qq0, s1);
    lemma_mul_is_distributive_add(t28, qq1, s2);
    lemma_mul_is_distributive_add(t28, qq2, s3);
    lemma_mul_is_distributive_add(t29, qq0, s1);
    lemma_mul_is_distributive_add(t29, qq1, s2);
    lemma_mul_is_distributive_add(t29, qq2, s3);
    lemma_mul_is_distributive_add(t30, qq0, s1);
    lemma_mul_is_distributive_add(t30, qq1, s2);
    lemma_mul_is_distributive_add(t30, qq2, s3);
    lemma_mul_is_distributive_add(t31, qq0, s1);
    lemma_mul_is_distributive_add(t31, qq1, s2);
    lemma_mul_is_distributive_add(t31, qq2, s3);
    lemma_tm(p, -567, 0, 2, 1, 5, 1, 0, 0, -1, 3, 0, 0, 0, 0, 0, 0);
    assert(t0 * s0 == (567) * mn(p, 3, 2, 1, 5, 1, 0, 0));
    lemma_tm(p, -567, 0, 2, 1, 5, 1, 0, 0, 3, 1, 0, 2, 0, 0, 0, 0);
    assert(t0 * s1 == (-1701) * mn(p, 1, 2, 3, 5, 1, 0, 0));
    lemma_tm(p, -567, 0, 2, 1, 5, 1, 0, 0, 1, 0, 2, 1, 0, 0, 0, 0);
    assert(t0 * s2 == (-567) * mn(p, 0, 4, 2, 5, 1, 0, 0));
    lemma_tm(p, -567, 0, 2, 1, 5, 1, 0, 0, -1, 0, 0, 3, 0, 0, 0, 1);
    assert(t0 * s3 == (567) * mn(p, 0, 2, 4, 5, 1, 0, 1));
    assert(t0 * q == (567) * mn(p, 3, 2, 1, 5, 1, 0, 0) + (-1701) * mn(p, 1, 2, 3, 5, 1, 0, 0) + (-567) * mn(p, 0, 4, 2, 5, 1, 0, 0) + (567) * mn(p, 0, 2, 4, 5, 1, 0, 1));
    lemma_tm(p, 648, 0, 2, 1, 4, 1, 1, 1, -1, 3, 0, 0, 0, 0, 0, 0);
    assert(t1 * s0 == (-648) * mn(p, 3, 2, 1, 4, 1, 1, 1));
    lemma_tm(p, 648, 0, 2, 1, 4, 1, 1, 1, 3, 1, 0, 2, 0, 0, 0, 0);
    assert(t1 * s1 == (1944) * mn(p, 1, 2, 3, 4, 1, 1, 1));
    lemma_tm(p, 648, 0, 2, 1, 4, 1, 1, 1, 1, 0, 2, 1, 0, 0, 0, 0);
    assert(t1 * s2 == (648) * mn(p, 0, 4, 2, 4, 1, 1, 1));
    lemma_tm(p, 648, 0, 2, 1, 4, 1, 1, 1, -1, 0, 0, 3, 0, 0, 0, 1);
    assert(t1 * s3 == (-648) * mn(p, 0, 2, 4, 4, 1, 1, 2));
    assert(t1 * q == (-648) * mn(p, 3, 2, 1, 4, 1, 1, 1) + (1944) * mn(p, 1, 2, 3, 4, 1, 1, 1) + (648) * mn(p, 0, 4, 2, 4, 1, 1, 1) + (-648) * mn(p, 0, 2, 4, 4, 1, 1, 2));
    lemma_tm(p, 27, 0, 2, 1, 3, 3, 0, 1, -1, 3, 0, 0, 0, 0, 0, 0);
    assert(t2 * s0 == (-27) * mn(p, 3, 2, 1, 3, 3, 0, 1));
    lemma_tm(p, 27, 0, 2, 1, 3, 3, 0, 1, 3, 1, 0, 2, 0, 0, 0, 0);
    assert(t2 * s1 == (81) * mn(p, 1, 2, 3, 3, 3, 0, 1));
    lemma_tm(p, 27, 0, 2, 1, 3, 3, 0, 1, 1, 0, 2, 1, 0, 0, 0, 0);
    assert(t2 * s2 == (27) * mn(p, 0, 4, 2, 3, 3, 0, 1));
    lemma_tm(p, 27, 0, 2, 1, 3, 3, 0, 1, -1, 0, 0, 3, 0, 0, 0, 1);
    assert(t2 * s3 == (-27) * mn(p, 0, 2, 4, 3, 3, 0, 2));
    assert(t2 * q == (-27) * mn(p, 3, 2, 1, 3, 3, 0, 1) + (81) * mn(p, 1, 2, 3, 3, 3, 0, 1) + (27) * mn(p, 0, 4, 2, 3, 3, 0, 1) + (-27) * mn(p, 0, 2, 4, 3, 3, 0, 2));
    lemma_tm(p, -243, 0, 2, 1, 3, 1, 2, 2, -1, 3, 0, 0, 0, 0, 0, 0);
    assert(t3 * s0 == (243) * mn(p, 3, 2, 1, 3, 1, 2, 2));
    lemma_tm(p, -243, 0, 2, 1, 3, 1, 2, 2, 3, 1, 0, 2, 0, 0, 0, 0);
    assert(t3 * s1 == (-729) * mn(p, 1, 2, 3, 3, 1, 2, 2));
    lemma_tm(p, -243, 0, 2, 1, 3, 1, 2, 2, 1, 0, 2, 1, 0, 0, 0, 0);
    assert(t3 * s2 == (-243) * mn(p, 0, 4, 2, 3, 1, 2, 2));
    lemma_tm(p, -243, 0, 2, 1, 3, 1, 2, 2, -1, 0, 0, 3, 0, 0, 0, 1);
    assert(t3 * s3 == (243) * mn(p, 0, 2, 4, 3, 1, 2, 3));
    assert(t3 * q == (243) * mn(p, 3, 2, 1, 3, 1, 2, 2) + (-729) * mn(p, 1, 2, 3, 3, 1, 2, 2) + (-243) * mn(p, 0, 4, 2, 3, 1, 2, 2) + (243) * mn(p, 0, 2, 4, 3, 1, 2, 3));
    lemma_tm(p, 1458, 0, 2, 1, 3, 1, 2, 0, -1, 3, 0, 0, 0, 0, 0, 0);
    assert(t4 * s0 == (-1458) * mn(p, 3, 2, 1, 3, 1, 2, 0));
    lemma_tm(p, 1458, 0, 2, 1, 3, 1, 2, 0, 3, 1, 0, 2, 0, 0, 0, 0);
    assert(t4 * s1 == (4374) * mn(p, 1, 2, 3, 3, 1, 2, 0));
    lemma_tm(p, 1458, 0, 2, 1, 3, 1, 2, 0, 1, 0, 2, 1, 0, 0, 0, 0);
    assert(t4 * s2 == (1458) * mn(p, 0, 4, 2, 3, 1, 2, 0));
    lemma_tm(p, 1458, 0, 2, 1, 3, 1, 2, 0, -1, 0, 0, 3, 0, 0, 0, 1);
    assert(t4 * s3 == (-1458) * mn(p, 0, 2, 4, 3, 1, 2, 1));
    assert(t4 * q == (-1458) * mn(p, 3, 2, 1, 3, 1, 2, 0) + (4374) * mn(p, 1, 2, 3, 3, 1, 2, 0) + (1458) * mn(p, 0, 4, 2, 3, 1, 2, 0) + (-1458) * mn(p, 0, 2, 4, 3, 1, 2, 1));
    lemma_tm(p, 459, 0, 2, 1, 2, 3, 1, 0, -1, 3, 0, 0, 0, 0, 0, 0);
    assert(t5 * s0 == (-459) * mn(p, 3, 2, 1, 2, 3, 1, 0));
    lemma_tm(p, 459, 0, 2, 1, 2, 3, 1, 0, 3, 1, 0, 2, 0, 0, 0, 0);
    assert(t5 * s1 == (1377) * mn(p, 1, 2, 3, 2, 3, 1, 0));
    lemma_tm(p, 459, 0, 2, 1, 2, 3, 1, 0, 1, 0, 2, 1, 0, 0, 0, 0);
    assert(t5 * s2 == (459) * mn(p, 0, 4, 2, 2, 3, 1, 0));
    lemma_tm(p, 459, 0, 2, 1, 2, 3, 1, 0, -1, 0, 0, 3, 0, 0, 0, 1);
    assert(t5 * s3 == (-459) * mn(p, 0, 2, 4, 2, 3, 1, 1));
    assert(t5 * q == (-459) * mn(p, 3, 2, 1, 2, 3, 1, 0) + (1377) * mn(p, 1, 2, 3, 2, 3, 1, 0) + (459) * mn(p, 0, 4, 2, 2, 3, 1, 0) + (-459) * mn(p, 0, 2, 4, 2, 3, 1, 1));
    lemma_tm(p, -1782, 0, 2, 1, 2, 1, 3, 1, -1, 3, 0, 0, 0, 0, 0, 0);
    assert(t6 * s0 == (1782) * mn(p, 3, 2, 1, 2, 1, 3, 1));
    lemma_tm(p, -1782, 0, 2, 1, 2, 1, 3, 1, 3, 1, 0, 2, 0, 0, 0, 0);
    assert(t6 * s1 == (-5346) * mn(p, 1, 2, 3, 2, 1, 3, 1));
    lemma_tm(p, -1782, 0, 2, 1, 2, 1, 3, 1, 1, 0, 2, 1, 0, 0, 0, 0);
    assert(t6 * s2 == (-1782) * mn(p, 0, 4, 2, 2, 1, 3, 1));
    lemma_tm(p, -1782, 0, 2, 1, 2, 1, 3, 1, -1, 0, 0, 3, 0, 0, 0, 1);
    assert(t6 * s3 == (1782) * mn(p, 0, 2, 4, 2, 1, 3, 2));
    assert(t6 * q == (1782) * mn(p, 3, 2, 1, 2, 1, 3, 1) + (-5346) * mn(p, 1, 2, 3, 2, 1, 3, 1) + (-1782) * mn(p, 0, 4, 2, 2, 1, 3, 1) + (1782) * mn(p, 0, 2, 4, 2, 1, 3, 2));
    lemma_tm(p, -540, 0, 2, 1, 1, 3, 2, 1, -1, 3, 0, 0, 0, 0, 0, 0);
    assert(t7 * s0 == (540) * mn(p, 3, 2, 1, 1, 3, 2, 1));
    lemma_tm(p, -540, 0, 2, 1, 1, 3, 2, 1, 3, 1, 0, 2, 0, 0, 0, 0);
    assert(t7 * s1 == (-1620) * mn(p, 1, 2, 3, 1, 3, 2, 1));
    lemma_tm(p, -540, 0, 2, 1, 1, 3, 2, 1, 1, 0, 2, 1, 0, 0, 0, 0);
    assert(t7 * s2 == (-540) * mn(p, 0, 4, 2, 1, 3, 2, 1));
    lemma_tm(p, -540, 0, 2, 1, 1, 3, 2, 1, -1, 0, 0, 3, 0, 0, 0, 1);
    assert(t7 * s3 == (540) * mn(p, 0, 2, 4, 1, 3, 2, 2));
    assert(t7 * q == (540) * mn(p, 3, 2, 1, 1, 3, 2, 1) + (-1620) * mn(p, 1, 2, 3, 1, 3, 2, 1) + (-540) * mn(p, 0, 4, 2, 1, 3, 2, 1) + (540) * mn(p, 0, 2, 4, 1, 3, 2, 2));
    lemma_tm(p, 972, 0, 2, 1, 1, 1, 4, 2, -1, 3, 0, 0, 0, 0, 0, 0);
    assert(t8 * s0 == (-972) * mn(p, 3, 2, 1, 1, 1, 4, 2));
    lemma_tm(p, 972, 0, 2, 1, 1, 1, 4, 2, 3, 1, 0, 2, 0, 0, 0, 0);
    assert(t8 * s1 == (2916) * mn(p, 1, 2, 3, 1, 1, 4, 2));
    lemma_tm(p, 972, 0, 2, 1, 1, 1, 4, 2, 1, 0, 2, 1, 0, 0, 0, 0);
    assert(t8 * s2 == (972) * mn(p, 0, 4, 2, 1, 1, 4, 2));
    lemma_tm(p, 972, 0, 2, 1, 1, 1, 4, 2, -1, 0, 0, 3, 0, 0, 0, 1);
    assert(t8 * s3 == (-972) * mn(p, 0, 2, 4, 1, 1, 4, 3));
    assert(t8 * q == (-972) * mn(p, 3, 2, 1, 1, 1, 4, 2) + (2916) * mn(p, 1, 2, 3, 1, 1, 4, 2) + (972) * mn(p, 0, 4, 2, 1, 1, 4, 2) + (-972) * mn(p, 0, 2, 4, 1, 1, 4, 3));
    lemma_tm(p, -567, 0, 2, 1, 1, 1, 4, 0, -1, 3, 0, 0, 0, 0, 0, 0);
    assert(t9 * s0 == (567) * mn(p, 3, 2, 1, 1, 1, 4, 0));
    lemma_tm(p, -567, 0, 2, 1, 1, 1, 4, 0, 3, 1, 0, 2, 0, 0, 0, 0);
    assert(t9 * s1 == (-1701) * mn(p, 1, 2, 3, 1, 1, 4, 0));
    lemma_tm(p, -567, 0, 2, 1, 1, 1, 4, 0, 1, 0, 2, 1, 0, 0, 0, 0);
    assert(t9 * s2 == (-567) * mn(p, 0, 4, 2, 1, 1, 4, 0));
    lemma_tm(p, -567, 0, 2, 1, 1, 1, 4, 0, -1, 0, 0, 3, 0, 0, 0, 1);
    assert(t9 * s3 == (567) * mn(p, 0, 2, 4, 1, 1, 4, 1));
    assert(t9 * q == (567) * mn(p, 3, 2, 1, 1, 1, 4, 0) + (-1701) * mn(p, 1, 2, 3, 1, 1, 4, 0) + (-567) * mn(p, 0, 4, 2, 1, 1, 4, 0) + (567) * mn(p, 0, 2, 4, 1, 1, 4, 1));
    lemma_tm(p, -18, 0, 2, 1, 0, 5, 1, 1, -1, 3, 0, 0, 0, 0, 0, 0);
    assert(t10 * s0 == (18) * mn(p, 3, 2, 1, 0, 5, 1, 1));
    lemma_tm(p, -18, 0, 2, 1, 0, 5, 1, 1, 3, 1, 0, 2, 0, 0, 0, 0);
    assert(t10 * s1 == (-54) * mn(p, 1, 2, 3, 0, 5, 1, 1));
    lemma_tm(p, -18, 0, 2, 1, 0, 5, 1, 1, 1, 0, 2, 1, 0, 0, 0, 0);
    assert(t10 * s2 == (-18) * mn(p, 0, 4, 2, 0, 5, 1, 1));
    lemma_tm(p, -18, 0, 2, 1, 0, 5, 1, 1, -1, 0, 0, 3, 0, 0, 0, 1);
    assert(t10 * s3 == (18) * mn(p, 0, 2, 4, 0, 5, 1, 2));
    assert(t10 * q == (18) * mn(p, 3, 2, 1, 0, 5, 1, 1) + (-54) * mn(p, 1, 2, 3, 0, 5, 1, 1) + (-18) * mn(p, 0, 4, 2, 0, 5, 1, 1) + (18) * mn(p, 0, 2, 4, 0, 5, 1, 2));
    lemma_tm(p, 108, 0, 2, 1, 0, 3, 3, 2, -1, 3, 0, 0, 0, 0, 0, 0);
    assert(t11 * s0 == (-108) * mn(p, 3, 2, 1, 0, 3, 3, 2));
    lemma_tm(p, 108, 0, 2, 1, 0, 3, 3, 2, 3, 1, 0, 2, 0, 0, 0, 0);
    assert(t11 * s1 == (324) * mn(p, 1, 2, 3, 0, 3, 3, 2));
    lemma_tm(p, 108, 0, 2, 1, 0, 3, 3, 2, 1, 0, 2, 1, 0, 0, 0, 0);
    assert(t11 * s2 == (108) * mn(p, 0, 4, 2, 0, 3, 3, 2));
    lemma_tm(p, 108, 0, 2, 1, 0, 3, 3, 2, -1, 0, 0, 3, 0, 0, 0, 1);
    assert(t11 * s3 == (-108) * mn(p, 0, 2, 4, 0, 3, 3, 3));
    assert(t11 * q == (-108) * mn(p, 3, 2, 1, 0, 3, 3, 2) + (324) * mn(p, 1, 2, 3, 0, 3, 3, 2) + (108) * mn(p, 0, 4, 2, 0, 3, 3, 2) + (-108) * mn(p, 0, 2, 4, 0, 3, 3, 3));
    lemma_tm(p, 135, 0, 2, 1, 0, 3, 3, 0, -1, 3, 0, 0, 0, 0, 0, 0);
    assert(t12 * s0 == (-135) * mn(p, 3, 2, 1, 0, 3, 3, 0));
    lemma_tm(p, 135, 0, 2, 1, 0, 3, 3, 0, 3, 1, 0, 2, 0, 0, 0, 0);
    assert(t12 * s1 == (405) * mn(p, 1, 2, 3, 0, 3, 3, 0));
    lemma_tm(p, 135, 0, 2, 1, 0, 3, 3, 0, 1, 0, 2, 1, 0, 0, 0, 0);
    assert(t12 * s2 == (135) * mn(p, 0, 4, 2, 0, 3, 3, 0));
    lemma_tm(p, 135, 0, 2, 1, 0, 3, 3, 0, -1, 0, 0, 3, 0, 0, 0, 1);
    assert(t12 * s3 == (-135) * mn(p, 0, 2, 4, 0, 3, 3, 1));
    assert(t12 * q == (-135) * mn(p, 3, 2, 1, 0, 3, 3, 0) + (405) * mn(p, 1, 2, 3, 0, 3, 3, 0) + (135) * mn(p, 0, 4, 2, 0, 3, 3, 0) + (-135) * mn(p, 0, 2, 4, 0, 3, 3, 1));
    lemma_tm(p, -162, 0, 2, 1, 0, 1, 5, 3, -1, 3, 0, 0, 0, 0, 0, 0);
    assert(t13 * s0 == (162) * mn(p, 3, 2, 1, 0, 1, 5, 3));
    lemma_tm(p, -162, 0, 2, 1, 0, 1, 5, 3, 3, 1, 0, 2, 0, 0, 0, 0);
    assert(t13 * s1 == (-486) * mn(p, 1, 2, 3, 0, 1, 5, 3));
    lemma_tm(p, -162, 0, 2, 1, 0, 1, 5, 3, 1, 0, 2, 1, 0, 0, 0, 0);
    assert(t13 * s2 == (-162) * mn(p, 0, 4, 2, 0, 1, 5, 3));
    lemma_tm(p, -162, 0, 2, 1, 0, 1, 5, 3, -1, 0, 0, 3, 0, 0, 0, 1);
    assert(t13 * s3 == (162) * mn(p, 0, 2, 4, 0, 1, 5, 4));
    assert(t13 * q == (162) * mn(p, 3, 2, 1, 0, 1, 5, 3) + (-486) * mn(p, 1, 2, 3, 0, 1, 5, 3) + (-162) * mn(p, 0, 4, 2, 0, 1, 5, 3) + (162) * mn(p, 0, 2, 4, 0, 1, 5, 4));
    lemma_tm(p, 162, 0, 2, 1, 0, 1, 5, 1, -1, 3, 0, 0, 0, 0, 0, 0);
    assert(t14 * s0 == (-162) * mn(p, 3, 2, 1, 0, 1, 5, 1));
    lemma_tm(p, 162, 0, 2, 1, 0, 1, 5, 1, 3, 1, 0, 2, 0, 0, 0, 0);
    assert(t14 * s1 == (486) * mn(p, 1, 2, 3, 0, 1, 5, 1));
    lemma_tm(p, 162, 0, 2, 1, 0, 1, 5, 1, 1, 0, 2, 1, 0, 0, 0, 0);
    assert(t14 * s2 == (162) * mn(p, 0, 4, 2, 0, 1, 5, 1));
    lemma_tm(p, 162, 0, 2, 1, 0, 1, 5, 1, -1, 0, 0, 3, 0, 0, 0, 1);
    assert(t14 * s3 == (-162) * mn(p, 0, 2, 4, 0, 1, 5, 2));
    assert(t14 * q == (-162) * mn(p, 3, 2, 1, 0, 1, 5, 1) + (486) * mn(p, 1, 2, 3, 0, 1, 5, 1) + (162) * mn(p, 0, 4, 2, 0, 1, 5, 1) + (-162) * mn(p, 0, 2, 4, 0, 1, 5, 2));
    lemma_tm(p, -243, 0, 1, 2, 6, 0, 0, 2, -1, 3, 0, 0, 0, 0, 0, 0);
    assert(t15 * s0 == (243) * mn(p, 3, 1, 2, 6, 0, 0, 2));
    lemma_tm(p, -243, 0, 1, 2, 6, 0, 0, 2, 3, 1, 0, 2, 0, 0, 0, 0);
    assert(t15 * s1 == (-729) * mn(p, 1, 1, 4, 6, 0, 0, 2));
    lemma_tm(p, -243, 0, 1, 2, 6, 0, 0, 2, 1, 0, 2, 1, 0, 0, 0, 0);
    assert(t15 * s2 == (-243) * mn(p, 0, 3, 3, 6, 0, 0, 2));
    lemma_tm(p, -243, 0, 1, 2, 6, 0, 0, 2, -1, 0, 0, 3, 0, 0, 0, 1);
    assert(t15 * s3 == (243) * mn(p, 0, 1, 5, 6, 0, 0, 3));
    assert(t15 * q == (243) * mn(p, 3, 1, 2, 6, 0, 0, 2) + (-729) * mn(p, 1, 1, 4, 6, 0, 0, 2) + (-243) * mn(p, 0, 3, 3, 6, 0, 0, 2) + (243) * mn(p, 0, 1, 5, 6, 0, 0, 3));
    lemma_tm(p, -1215, 0, 1, 2, 6, 0, 0, 0, -1, 3, 0, 0, 0, 0, 0, 0);
    assert(t16 * s0 == (1215) * mn(p, 3, 1, 2, 6, 0, 0, 0));
    lemma_tm(p, -1215, 0, 1, 2, 6, 0, 0, 0, 3, 1, 0, 2, 0, 0, 0, 0);
    assert(t16 * s1 == (-3645) * mn(p, 1, 1, 4, 6, 0, 0, 0));
    lemma_tm(p, -1215, 0, 1, 2, 6, 0, 0, 0, 1, 0, 2, 1, 0, 0, 0, 0);
    assert(t16 * s2 == (-1215) * mn(p, 0, 3, 3, 6, 0, 0, 0));
    lemma_tm(p, -1215, 0, 1, 2, 6, 0, 0, 0, -1, 0, 0, 3, 0, 0, 0, 1);
    assert(t16 * s3 == (1215) * mn(p, 0, 1, 5, 6, 0, 0, 1));
    assert(t16 * q == (1215) * mn(p, 3, 1, 2, 6, 0, 0, 0) + (-3645) * mn(p, 1, 1, 4, 6, 0, 0, 0) + (-1215) * mn(p, 0, 3, 3, 6, 0, 0, 0) + (1215) * mn(p, 0, 1, 5, 6, 0, 0, 1));
    lemma_tm(p, 3402, 0, 1, 2, 5, 0, 1, 1, -1, 3, 0, 0, 0, 0, 0, 0);
    assert(t17 * s0 == (-3402) * mn(p, 3, 1, 2, 5, 0, 1, 1));
    lemma_tm(p, 3402, 0, 1, 2, 5, 0, 1, 1, 3, 1, 0, 2, 0, 0, 0, 0);
    assert(t17 * s1 == (10206) * mn(p, 1, 1, 4, 5, 0, 1, 1));
    lemma_tm(p, 3402, 0, 1, 2, 5, 0, 1, 1, 1, 0, 2, 1, 0, 0, 0, 0);
    assert(t17 * s2 == (3402) * mn(p, 0, 3, 3, 5, 0, 1, 1));
    lemma_tm(p, 3402, 0, 1, 2, 5, 0, 1, 1, -1, 0, 0, 3, 0, 0, 0, 1);
    assert(t17 * s3 == (-3402) * mn(p, 0, 1, 5, 5, 0, 1, 2));
    assert(t17 * q == (-3402) * mn(p, 3, 1, 2, 5, 0, 1, 1) + (10206) * mn(p, 1, 1, 4, 5, 0, 1, 1) + (3402) * mn(p, 0, 3, 3, 5, 0, 1, 1) + (-3402) * mn(p, 0, 1, 5, 5, 0, 1, 2));
    lemma_tm(p, 405, 0, 1, 2, 4, 2, 0, 1, -1, 3, 0, 0, 0, 0, 0, 0);
    assert(t18 * s0 == (-405) * mn(p, 3, 1, 2, 4, 2, 0, 1));
    lemma_tm(p, 405, 0, 1, 2, 4, 2, 0, 1, 3, 1, 0, 2, 0, 0, 0, 0);
    assert(t18 * s1 == (1215) * mn(p, 1, 1, 4, 4, 2, 0, 1));
    lemma_tm(p, 405, 0, 1, 2, 4, 2, 0, 1, 1, 0, 2, 1, 0, 0, 0, 0);
    assert(t18 * s2 == (405) * mn(p, 0, 3, 3, 4, 2, 0, 1));
    lemma_tm(p, 405, 0, 1, 2, 4, 2, 0, 1, -1, 0, 0, 3, 0, 0, 0, 1);
    assert(t18 * s3 == (-405) * mn(p, 0, 1, 5, 4, 2, 0, 2));
    assert(t18 * q == (-405) * mn(p, 3, 1, 2, 4, 2, 0, 1) + (1215) * mn(p, 1, 1, 4, 4, 2, 0, 1) + (405) * mn(p, 0, 3, 3, 4, 2, 0, 1) + (-405) * mn(p, 0, 1, 5, 4, 2, 0, 2));
    lemma_tm(p, -486, 0, 1, 2, 4, 0, 2, 2, -1, 3, 0, 0, 0, 0, 0, 0);
    assert(t19 * s0 == (486) * mn(p, 3, 1, 2, 4, 0, 2, 2));
    lemma_tm(p, -486, 0, 1, 2, 4, 0, 2, 2, 3, 1, 0, 2, 0, 0, 0, 0);
    assert(t19 * s1 == (-1458) * mn(p, 1, 1, 4, 4, 0, 2, 2));
    lemma_tm(p, -486, 0, 1, 2, 4, 0, 2, 2, 1, 0, 2, 1, 0, 0, 0, 0);
    assert(t19 * s2 == (-486) * mn(p, 0, 3, 3, 4, 0, 2, 2));
    lemma_tm(p, -486, 0, 1, 2, 4, 0, 2, 2, -1, 0, 0, 3, 0, 0, 0, 1);
    assert(t19 * s3 == (486) * mn(p, 0, 1, 5, 4, 0, 2, 3));
    assert(t19 * q == (486) * mn(p, 3, 1, 2, 4, 0, 2, 2) + (-1458) * mn(p, 1, 1, 4, 4, 0, 2, 2) + (-486) * mn(p, 0, 3, 3, 4, 0, 2, 2) + (486) * mn(p, 0, 1, 5, 4, 0, 2, 3));
    lemma_tm(p, 729, 0, 1, 2, 4, 0, 2, 0, -1, 3, 0, 0, 0, 0, 0, 0);
    assert(t20 * s0 == (-729) * mn(p, 3, 1, 2, 4, 0, 2, 0));
    lemma_tm(p, 729, 0, 1, 2, 4, 0, 2, 0, 3, 1, 0, 2, 0, 0, 0, 0);
    assert(t20 * s1 == (2187) * mn(p, 1, 1, 4, 4, 0, 2, 0));
    lemma_tm(p, 729, 0, 1, 2, 4, 0, 2, 0, 1, 0, 2, 1, 0, 0, 0, 0);
    assert(t20 * s2 == (729) * mn(p, 0, 3, 3, 4, 0, 2, 0));
    lemma_tm(p, 729, 0, 1, 2, 4, 0, 2, 0, -1, 0, 0, 3, 0, 0, 0, 1);
    assert(t20 * s3 == (-729) * mn(p, 0, 1, 5, 4, 0, 2, 1));
    assert(t20 * q == (-729) * mn(p, 3, 1, 2, 4, 0, 2, 0) + (2187) * mn(p, 1, 1, 4, 4, 0, 2, 0) + (729) * mn(p, 0, 3, 3, 4, 0, 2, 0) + (-729) * mn(p, 0, 1, 5, 4, 0, 2, 1));
    lemma_tm(p, 972, 0, 1, 2, 3, 2, 1, 0, -1, 3, 0, 0, 0, 0, 0, 0);
    assert(t21 * s0 == (-972) * mn(p, 3, 1, 2, 3, 2, 1, 0));
    lemma_tm(p, 972, 0, 1, 2, 3, 2, 1, 0, 3, 1, 0, 2, 0, 0, 0, 0);
    assert(t21 * s1 == (2916) * mn(p, 1, 1, 4, 3, 2, 1, 0));
    lemma_tm(p, 972, 0, 1, 2, 3, 2, 1, 0, 1, 0, 2, 1, 0, 0, 0, 0);
    assert(t21 * s2 == (972) * mn(p, 0, 3, 3, 3, 2, 1, 0));
    lemma_tm(p, 972, 0, 1, 2, 3, 2, 1, 0, -1, 0, 0, 3, 0, 0, 0, 1);
    assert(t21 * s3 == (-972) * mn(p, 0, 1, 5, 3, 2, 1, 1));
    assert(t21 * q == (-972) * mn(p, 3, 1, 2, 3, 2, 1, 0) + (2916) * mn(p, 1, 1, 4, 3, 2, 1, 0) + (972) * mn(p, 0, 3, 3, 3, 2, 1, 0) + (-972) * mn(p, 0, 1, 5, 3, 2, 1, 1));
    lemma_tm(p, -9720, 0, 1, 2, 3, 0, 3, 1, -1, 3, 0, 0, 0, 0, 0, 0);
    assert(t22 * s0 == (9720) * mn(p, 3, 1, 2, 3, 0, 3, 1));
    lemma_tm(p, -9720, 0, 1, 2, 3, 0, 3, 1, 3, 1, 0, 2, 0, 0, 0, 0);
    assert(t22 * s1 == (-29160) * mn(p, 1, 1, 4, 3, 0, 3, 1));
    lemma_tm(p, -9720, 0, 1, 2, 3, 0, 3, 1, 1, 0, 2, 1, 0, 0, 0, 0);
    assert(t22 * s2 == (-9720) * mn(p, 0, 3, 3, 3, 0, 3, 1));
    lemma_tm(p, -9720, 0, 1, 2, 3, 0, 3, 1, -1, 0, 0, 3, 0, 0, 0, 1);
    assert(t22 * s3 == (9720) * mn(p, 0, 1, 5, 3, 0, 3, 2));
    assert(t22 * q == (9720) * mn(p, 3, 1, 2, 3, 0, 3, 1) + (-29160) * mn(p, 1, 1, 4, 3, 0, 3, 1) + (-9720) * mn(p, 0, 3, 3, 3, 0, 3, 1) + (9720) * mn(p, 0, 1, 5, 3, 0, 3, 2));
    lemma_tm(p, -27, 0, 1, 2, 2, 4, 0, 0, -1, 3, 0, 0, 0, 0, 0, 0);
    assert(t23 * s0 == (27) * mn(p, 3, 1, 2, 2, 4, 0, 0));
    lemma_tm(p, -27, 0, 1, 2, 2, 4, 0, 0, 3, 1, 0, 2, 0, 0, 0, 0);
    assert(t23 * s1 == (-81) * mn(p, 1, 1, 4, 2, 4, 0, 0));
    lemma_tm(p, -27, 0, 1, 2, 2, 4, 0, 0, 1, 0, 2, 1, 0, 0, 0, 0);
    assert(t23 * s2 == (-27) * mn(p, 0, 3, 3, 2, 4, 0, 0));
    lemma_tm(p, -27, 0, 1, 2, 2, 4, 0, 0, -1, 0, 0, 3, 0, 0, 0, 1);
    assert(t23 * s3 == (27) * mn(p, 0, 1, 5, 2, 4, 0, 1));
    assert(t23 * q == (27) * mn(p, 3, 1, 2, 2, 4, 0, 0) + (-81) * mn(p, 1, 1, 4, 2, 4, 0, 0) + (-27) * mn(p, 0, 3, 3, 2, 4, 0, 0) + (27) * mn(p, 0, 1, 5, 2, 4, 0, 1));
    lemma_tm(p, -3888, 0, 1, 2, 2, 2, 2, 1, -1, 3, 0, 0, 0, 0, 0, 0);
    assert(t24 * s0 == (3888) * mn(p, 3, 1, 2, 2, 2, 2, 1));
    lemma_tm(p, -3888, 0, 1, 2, 2, 2, 2, 1, 3, 1, 0, 2, 0, 0, 0, 0);
    assert(t24 * s1 == (-11664) * mn(p, 1, 1, 4, 2, 2, 2, 1));
    lemma_tm(p, -3888, 0, 1, 2, 2, 2, 2, 1, 1, 0, 2, 1, 0, 0, 0, 0);
    assert(t24 * s2 == (-3888) * mn(p, 0, 3, 3, 2, 2, 2, 1));
    lemma_tm(p, -3888, 0, 1, 2, 2, 2, 2, 1, -1, 0, 0, 3, 0, 0, 0, 1);
    assert(t24 * s3 == (3888) * mn(p, 0, 1, 5, 2, 2, 2, 2));
    assert(t24 * q == (3888) * mn(p, 3, 1, 2, 2, 2, 2, 1) + (-11664) * mn(p, 1, 1, 4, 2, 2, 2, 1) + (-3888) * mn(p, 0, 3, 3, 2, 2, 2, 1) + (3888) * mn(p, 0, 1, 5, 2, 2, 2, 2));
    lemma_tm(p, 5346, 0, 1, 2, 2, 0, 4, 2, -1, 3, 0, 0, 0, 0, 0, 0);
    assert(t25 * s0 == (-5346) * mn(p, 3, 1, 2, 2, 0, 4, 2));
    lemma_tm(p, 5346, 0, 1, 2, 2, 0, 4, 2, 3, 1, 0, 2, 0, 0, 0, 0);
    assert(t25 * s1 == (16038) * mn(p, 1, 1, 4, 2, 0, 4, 2));
    lemma_tm(p, 5346, 0, 1, 2, 2, 0, 4, 2, 1, 0, 2, 1, 0, 0, 0, 0);
    assert(t25 * s2 == (5346) * mn(p, 0, 3, 3, 2, 0, 4, 2));
    lemma_tm(p, 5346, 0, 1, 2, 2, 0, 4, 2, -1, 0, 0, 3, 0, 0, 0, 1);
    assert(t25 * s3 == (-5346) * mn(p, 0, 1, 5, 2, 0, 4, 3));
    assert(t25 * q == (-5346) * mn(p, 3, 1, 2, 2, 0, 4, 2) + (16038) * mn(p, 1, 1, 4, 2, 0, 4, 2) + (5346) * mn(p, 0, 3, 3, 2, 0, 4, 2) + (-5346) * mn(p, 0, 1, 5, 2, 0, 4, 3));
    lemma_tm(p, 8991, 0, 1, 2, 2, 0, 4, 0, -1, 3, 0, 0, 0, 0, 0, 0);
    assert(t26 * s0 == (-8991) * mn(p, 3, 1, 2, 2, 0, 4, 0));
    lemma_tm(p, 8991, 0, 1, 2, 2, 0, 4, 0, 3, 1, 0, 2, 0, 0, 0, 0);
    assert(t26 * s1 == (26973) * mn(p, 1, 1, 4, 2, 0, 4, 0));
    lemma_tm(p, 8991, 0, 1, 2, 2, 0, 4, 0, 1, 0, 2, 1, 0, 0, 0, 0);
    assert(t26 * s2 == (8991) * mn(p, 0, 3, 3, 2, 0, 4, 0));
    lemma_tm(p, 8991, 0, 1, 2, 2, 0, 4, 0, -1, 0, 0, 3, 0, 0, 0, 1);
    assert(t26 * s3 == (-8991) * mn(p, 0, 1, 5, 2, 0, 4, 1));
    assert(t26 * q == (-8991) * mn(p, 3, 1, 2, 2, 0, 4, 0) + (26973) * mn(p, 1, 1, 4, 2, 0, 4, 0) + (8991) * mn(p, 0, 3, 3, 2, 0, 4, 0) + (-8991) * mn(p, 0, 1, 5, 2, 0, 4, 1));
    lemma_tm(p, -324, 0, 1, 2, 1, 4, 1, 1, -1, 3, 0, 0, 0, 0, 0, 0);
    assert(t27 * s0 == (324) * mn(p, 3, 1, 2, 1, 4, 1, 1));
    lemma_tm(p, -324, 0, 1, 2, 1, 4, 1, 1, 3, 1, 0, 2, 0, 0, 0, 0);
    assert(t27 * s1 == (-972) * mn(p, 1, 1, 4, 1, 4, 1, 1));
    lemma_tm(p, -324, 0, 1, 2, 1, 4, 1, 1, 1, 0, 2, 1, 0, 0, 0, 0);
    assert(t27 * s2 == (-324) * mn(p, 0, 3, 3, 1, 4, 1, 1));
    lemma_tm(p, -324, 0, 1, 2, 1, 4, 1, 1, -1, 0, 0, 3, 0, 0, 0, 1);
    assert(t27 * s3 == (324) * mn(p, 0, 1, 5, 1, 4, 1, 2));
    assert(t27 * q == (324) * mn(p, 3, 1, 2, 1, 4, 1, 1) + (-972) * mn(p, 1, 1, 4, 1, 4, 1, 1) + (-324) * mn(p, 0, 3, 3, 1, 4, 1, 1) + (324) * mn(p, 0, 1, 5, 1, 4, 1, 2));
    lemma_tm(p, 1944, 0, 1, 2, 1, 2, 3, 2, -1, 3, 0, 0, 0, 0, 0, 0);
    assert(t28 * s0 == (-1944) * mn(p, 3, 1, 2, 1, 2, 3, 2));
    lemma_tm(p, 1944, 0, 1, 2, 1, 2, 3, 2, 3, 1, 0, 2, 0, 0, 0, 0);
    assert(t28 * s1 == (5832) * mn(p, 1, 1, 4, 1, 2, 3, 2));
    lemma_tm(p, 1944, 0, 1, 2, 1, 2, 3, 2, 1, 0, 2, 1, 0, 0, 0, 0);
    assert(t28 * s2 == (1944) * mn(p, 0, 3, 3, 1, 2, 3, 2));
    lemma_tm(p, 1944, 0, 1, 2, 1, 2, 3, 2, -1, 0, 0, 3, 0, 0, 0, 1);
    assert(t28 * s3 == (-1944) * mn(p, 0, 1, 5, 1, 2, 3, 3));
    assert(t28 * q == (-1944) * mn(p, 3, 1, 2, 1, 2, 3, 2) + (5832) * mn(p, 1, 1, 4, 1, 2, 3, 2) + (1944) * mn(p, 0, 3, 3, 1, 2, 3, 2) + (-1944) * mn(p, 0, 1, 5, 1, 2, 3, 3));
    lemma_tm(p, 1620, 0, 1, 2, 1, 2, 3, 0, -1, 3, 0, 0, 0, 0, 0, 0);
    assert(t29 * s0 == (-1620) * mn(p, 3, 1, 2, 1, 2, 3, 0));
    lemma_tm(p, 1620, 0, 1, 2, 1, 2, 3, 0, 3, 1, 0, 2, 0, 0, 0, 0);
    assert(t29 * s1 == (4860) * mn(p, 1, 1, 4, 1, 2, 3, 0));
    lemma_tm(p, 1620, 0, 1, 2, 1, 2, 3, 0, 1, 0, 2, 1, 0, 0, 0, 0);
    assert(t29 * s2 == (1620) * mn(p, 0, 3, 3, 1, 2, 3, 0));
    lemma_tm(p, 1620, 0, 1, 2, 1, 2, 3, 0, -1, 0, 0, 3, 0, 0, 0, 1);
    assert(t29 * s3 == (-1620) * mn(p, 0, 1, 5, 1, 2, 3, 1));
    assert(t29 * q == (-1620) * mn(p, 3, 1, 2, 1, 2, 3, 0) + (4860) * mn(p, 1, 1, 4, 1, 2, 3, 0) + (1620) * mn(p, 0, 3, 3, 1, 2, 3, 0) + (-1620) * mn(p, 0, 1, 5, 1, 2, 3, 1));
    lemma_tm(p, -972, 0, 1, 2, 1, 0, 5, 3, -1, 3, 0, 0, 0, 0, 0, 0);
    assert(t30 * s0 == (972) * mn(p, 3, 1, 2, 1, 0, 5, 3));
    lemma_tm(p, -972, 0, 1, 2, 1, 0, 5, 3, 3, 1, 0, 2, 0, 0, 0, 0);
    assert(t30 * s1 == (-2916) * mn(p, 1, 1, 4, 1, 0, 5, 3));
    lemma_tm(p, -972, 0, 1, 2, 1, 0, 5, 3, 1, 0, 2, 1, 0, 0, 0, 0);
    assert(t30 * s2 == (-972) * mn(p, 0, 3, 3, 1, 0, 5, 3));
    lemma_tm(p, -972, 0, 1, 2, 1, 0, 5, 3, -1, 0, 0, 3, 0, 0, 0, 1);
    assert(t30 * s3 == (972) * mn(p, 0, 1, 5, 1, 0, 5, 4));
    assert(t30 * q == (972) * mn(p, 3, 1, 2, 1, 0, 5, 3) + (-2916) * mn(p, 1, 1, 4, 1, 0, 5, 3) + (-972) * mn(p, 0, 3, 3, 1, 0, 5, 3) + (972) * mn(p, 0, 1, 5, 1, 0, 5, 4));
    lemma_tm(p, -5346, 0, 1, 2, 1, 0, 5, 1, -1, 3, 0, 0, 0, 0, 0, 0);
    assert(t31 * s0 == (5346) * mn(p, 3, 1, 2, 1, 0, 5, 1));
    lemma_tm(p, -5346, 0, 1, 2, 1, 0, 5, 1, 3, 1, 0, 2, 0, 0, 0, 0);
    assert(t31 * s1 == (-16038) * mn(p, 1, 1, 4, 1, 0, 5, 1));
    lemma_tm(p, -5346, 0, 1, 2, 1, 0, 5, 1, 1, 0, 2, 1, 0, 0, 0, 0);
    assert(t31 * s2 == (-5346) * mn(p, 0, 3, 3, 1, 0, 5, 1));
    lemma_tm(p, -5346, 0, 1, 2, 1, 0, 5, 1, -1, 0, 0, 3, 0, 0, 0, 1);
    assert(t31 * s3 == (5346) * mn(p, 0, 1, 5, 1, 0, 5, 2));
    assert(t31 * q == (5346) * mn(p, 3, 1, 2, 1, 0, 5, 1) + (-16038) * mn(p, 1, 1, 4, 1, 0, 5, 1) + (-5346) * mn(p, 0, 3, 3, 1, 0, 5, 1) + (5346) * mn(p, 0, 1, 5, 1, 0, 5, 2));
    assert(pp31 * q == ((((((((567) * mn(p, 3, 2, 1, 5, 1, 0, 0) + (-648) * mn(p, 3, 2, 1, 4, 1, 1, 1)) + ((-27) * mn(p, 3, 2, 1, 3, 3, 0, 1) + (243) * mn(p, 3, 2, 1, 3, 1, 2, 2))) + (((-1458) * mn(p, 3, 2, 1, 3, 1, 2, 0) + (-459) * mn(p, 3, 2, 1, 2, 3, 1, 0)) + ((1782) * mn(p, 3, 2, 1, 2, 1, 3, 1) + (540) * mn(p, 3, 2, 1, 1, 3, 2, 1)))) + ((((-972) * mn(p, 3, 2, 1, 1, 1, 4, 2) + (567) * mn(p, 3, 2, 1, 1, 1, 4, 0)) + ((18) * mn(p, 3, 2, 1, 0, 5, 1, 1) + (-108) * mn(p, 3, 2, 1, 0, 3, 3, 2))) + (((-135) * mn(p, 3, 2, 1, 0, 3, 3, 0) + (162) * mn(p, 3, 2, 1, 0, 1, 5, 3)) + ((-162) * mn(p, 3, 2, 1, 0, 1, 5, 1) + (243) * mn(p, 3, 1, 2, 6, 0, 0, 2))))) + (((((1215) * mn(p, 3, 1, 2, 6, 0, 0, 0) + (-3402) * mn(p, 3, 1, 2, 5, 0, 1, 1)) + ((-405) * mn(p, 3, 1, 2, 4, 2, 0, 1) + (486) * mn(p, 3, 1, 2, 4, 0, 2, 2))) + (((-729) * mn(p, 3, 1, 2, 4, 0, 2, 0) + (-972) * mn(p, 3, 1, 2, 3, 2, 1, 0)) + ((9720) * mn(p, 3, 1, 2, 3, 0, 3, 1) + (27) * mn(p, 3, 1, 2, 2, 4, 0, 0)))) + ((((3888) * mn(p, 3, 1, 2, 2, 2, 2, 1) + (-5346) * mn(p, 3, 1, 2, 2, 0, 4, 2)) + ((-8991) * mn(p, 3, 1, 2, 2, 0, 4, 0) + (324) * mn(p, 3, 1, 2, 1, 4, 1, 1))) + (((-1944) * mn(p, 3, 1, 2, 1, 2, 3, 2) + (-1620) * mn(p, 3, 1, 2, 1, 2, 3, 0)) + ((972) * mn(p, 3, 1, 2, 1, 0, 5, 3) + (5346) * mn(p, 3, 1, 2, 1, 0, 5, 1)))))) + ((((((-1701) * mn(p, 1, 2, 3, 5, 1, 0, 0) + (1944) * mn(p, 1, 2, 3, 4, 1, 1, 1)) + ((81) * mn(p, 1, 2, 3, 3, 3, 0, 1) + (-729) * mn(p, 1, 2, 3, 3, 1, 2, 2))) + (((4374) * mn(p, 1, 2, 3, 3, 1, 2, 0) + (1377) * mn(p, 1, 2, 3, 2, 3, 1, 0)) + ((-5346) * mn(p, 1, 2, 3, 2, 1, 3, 1) + (-1620) * mn(p, 1, 2, 3, 1, 3, 2, 1)))) + ((((2916) * mn(p, 1, 2, 3, 1, 1, 4, 2) + (-1701) * mn(p, 1, 2, 3, 1, 1, 4, 0)) + ((-54) * mn(p, 1, 2, 3, 0, 5, 1, 1) + (324) * mn(p, 1, 2, 3, 0, 3, 3, 2))) + (((405) * mn(p, 1, 2, 3, 0, 3, 3, 0) + (-486) * mn(p, 1, 2, 3, 0, 1, 5, 3)) + ((486) * mn(p, 1, 2, 3, 0, 1, 5, 1) + (-729) * mn(p, 1, 1, 4, 6, 0, 0, 2))))) + (((((-3645) * mn(p, 1, 1, 4, 6, 0, 0, 0) + (10206) * mn(p, 1, 1, 4, 5, 0, 1, 1)) + ((1215) * mn(p, 1, 1, 4, 4, 2, 0, 1) + (-1458) * mn(p, 1, 1, 4, 4, 0, 2, 2))) + (((2187) * mn(p, 1, 1, 4, 4, 0, 2, 0) + (2916) * mn(p, 1, 1, 4, 3, 2, 1, 0)) + ((-29160) * mn(p, 1, 1, 4, 3, 0, 3, 1) + (-81) * mn(p, 1, 1, 4, 2, 4, 0, 0)))) + ((((-11664) * mn(p, 1, 1, 4, 2, 2, 2, 1) + (16038) * mn(p, 1, 1, 4, 2, 0, 4, 2)) + ((26973) * mn(p, 1, 1, 4, 2, 0, 4, 0) + (-972) * mn(p, 1, 1, 4, 1, 4, 1, 1))) + (((5832) * mn(p, 1, 1, 4, 1, 2, 3, 2) + (4860) * mn(p, 1, 1, 4, 1, 2, 3, 0)) + ((-2916) * mn(p, 1, 1, 4, 1, 0, 5, 3) + (-16038) * mn(p, 1, 1, 4, 1, 0, 5, 1))))))) + (((((((-567) * mn(p, 0, 4, 2, 5, 1, 0, 0) + (648) * mn(p, 0, 4, 2, 4, 1, 1, 1)) + ((27) * mn(p, 0, 4, 2, 3, 3, 0, 1) + (-243) * mn(p, 0, 4, 2, 3, 1, 2, 2))) + (((1458) * mn(p, 0, 4, 2, 3, 1, 2, 0) + (459) * mn(p, 0, 4, 2, 2, 3, 1, 0)) + ((-1782) * mn(p, 0, 4, 2, 2, 1, 3, 1) + (-540) * mn(p, 0, 4, 2, 1, 3, 2, 1)))) + ((((972) * mn(p, 0, 4, 2, 1, 1, 4, 2) + (-567) * mn(p, 0, 4, 2, 1, 1, 4, 0)) + ((-18) * mn(p, 0, 4, 2, 0, 5, 1, 1) + (108) * mn(p, 0, 4, 2, 0, 3, 3, 2))) + (((135) * mn(p, 0, 4, 2, 0, 3, 3, 0) + (-162) * mn(p, 0, 4, 2, 0, 1, 5, 3)) + ((162) * mn(p, 0, 4, 2, 0, 1, 5, 1) + (-243) * mn(p, 0, 3, 3, 6, 0, 0, 2))))) + (((((-1215) * mn(p, 0, 3, 3, 6, 0, 0, 0) + (3402) * mn(p, 0, 3, 3, 5, 0, 1, 1)) + ((405) * mn(p, 0, 3, 3, 4, 2, 0, 1) + (-486) * mn(p, 0, 3, 3, 4, 0, 2, 2))) + (((729) * mn(p, 0, 3, 3, 4, 0, 2, 0) + (972) * mn(p, 0, 3, 3, 3, 2, 1, 0)) + ((-9720) * mn(p, 0, 3, 3, 3, 0, 3, 1) + (-27) * mn(p, 0, 3, 3, 2, 4, 0, 0)))) + ((((-3888) * mn(p, 0, 3, 3, 2, 2, 2, 1) + (5346) * mn(p, 0, 3, 3, 2, 0, 4, 2)) + ((8991) * mn(p, 0, 3, 3, 2, 0, 4, 0) + (-324) * mn(p, 0, 3, 3, 1, 4, 1, 1))) + (((1944) * mn(p, 0, 3, 3, 1, 2, 3, 2) + (1620) * mn(p, 0, 3, 3, 1, 2, 3, 0)) + ((-972) * mn(p, 0, 3, 3, 1, 0, 5, 3) + (-5346) * mn(p, 0, 3, 3, 1, 0, 5, 1)))))) + ((((((567) * mn(p, 0, 2, 4, 5, 1, 0, 1) + (-648) * mn(p, 0, 2, 4, 4, 1, 1, 2)) + ((-27) * mn(p, 0, 2, 4, 3, 3, 0, 2) + (243) * mn(p, 0, 2, 4, 3, 1, 2, 3))) + (((-1458) * mn(p, 0, 2, 4, 3, 1, 2, 1) + (-459) * mn(p, 0, 2, 4, 2, 3, 1, 1)) + ((1782) * mn(p, 0, 2, 4, 2, 1, 3, 2) + (540) * mn(p, 0, 2, 4, 1, 3, 2, 2)))) + ((((-972) * mn(p, 0, 2, 4, 1, 1, 4, 3) + (567) * mn(p, 0, 2, 4, 1, 1, 4, 1)) + ((18) * mn(p, 0, 2, 4, 0, 5, 1, 2) + (-108) * mn(p, 0, 2, 4, 0, 3, 3, 3))) + (((-135) * mn(p, 0, 2, 4, 0, 3, 3, 1) + (162) * mn(p, 0, 2, 4, 0, 1, 5, 4)) + ((-162) * mn(p, 0, 2, 4, 0, 1, 5, 2) + (243) * mn(p, 0, 1, 5, 6, 0, 0, 3))))) + (((((1215) * mn(p, 0, 1, 5, 6, 0, 0, 1) + (-3402) * mn(p, 0, 1, 5, 5, 0, 1, 2)) + ((-405) * mn(p, 0, 1, 5, 4, 2, 0, 2) + (486) * mn(p, 0, 1, 5, 4, 0, 2, 3))) + (((-729) * mn(p, 0, 1, 5, 4, 0, 2, 1) + (-972) * mn(p, 0, 1, 5, 3, 2, 1, 1)) + ((9720) * mn(p, 0, 1, 5, 3, 0, 3, 2) + (27) * mn(p, 0, 1, 5, 2, 4, 0, 1)))) + ((((3888) * mn(p, 0, 1, 5, 2, 2, 2, 2) + (-5346) * mn(p, 0, 1, 5, 2, 0, 4, 3)) + ((-8991) * mn(p, 0, 1, 5, 2, 0, 4, 1) + (324) * mn(p, 0, 1, 5, 1, 4, 1, 2))) + (((-1944) * mn(p, 0, 1, 5, 1, 2, 3, 3) + (-1620) * mn(p, 0, 1, 5, 1, 2, 3, 1)) + ((972) * mn(p, 0, 1, 5, 1, 0, 5, 4) + (5346) * mn(p, 0, 1, 5, 1, 0, 5, 2)))))))));
    assert(pp31 == ((((((-567) * mn(p, 0, 2, 1, 5, 1, 0, 0) + (648) * mn(p, 0, 2, 1, 4, 1, 1, 1)) + ((27) * mn(p, 0, 2, 1, 3, 3, 0, 1) + (-243) * mn(p, 0, 2, 1, 3, 1, 2, 2))) + (((1458) * mn(p, 0, 2, 1, 3, 1, 2, 0) + (459) * mn(p, 0, 2, 1, 2, 3, 1, 0)) + ((-1782) * mn(p, 0, 2, 1, 2, 1, 3, 1) + (-540) * mn(p, 0, 2, 1, 1, 3, 2, 1)))) + ((((972) * mn(p, 0, 2, 1, 1, 1, 4, 2) + (-567) * mn(p, 0, 2, 1, 1, 1, 4, 0)) + ((-18) * mn(p, 0, 2, 1, 0, 5, 1, 1) + (108) * mn(p, 0, 2, 1, 0, 3, 3, 2))) + (((135) * mn(p, 0, 2, 1, 0, 3, 3, 0) + (-162) * mn(p, 0, 2, 1, 0, 1, 5, 3)) + ((162) * mn(p, 0, 2, 1, 0, 1, 5, 1) + (-243) * mn(p, 0, 1, 2, 6, 0, 0, 2))))) + (((((-1215) * mn(p, 0, 1, 2, 6, 0, 0, 0) + (3402) * mn(p, 0, 1, 2, 5, 0, 1, 1)) + ((405) * mn(p, 0, 1, 2, 4, 2, 0, 1) + (-486) * mn(p, 0, 1, 2, 4, 0, 2, 2))) + (((729) * mn(p, 0, 1, 2, 4, 0, 2, 0) + (972) * mn(p, 0, 1, 2, 3, 2, 1, 0)) + ((-9720) * mn(p, 0, 1, 2, 3, 0, 3, 1) + (-27) * mn(p, 0, 1, 2, 2, 4, 0, 0)))) + ((((-3888) * mn(p, 0, 1, 2, 2, 2, 2, 1) + (5346) * mn(p, 0, 1, 2, 2, 0, 4, 2)) + ((8991) * mn(p, 0, 1, 2, 2, 0, 4, 0) + (-324) * mn(p, 0, 1, 2, 1, 4, 1, 1))) + (((1944) * mn(p, 0, 1, 2, 1, 2, 3, 2) + (1620) * mn(p, 0, 1, 2, 1, 2, 3, 0)) + ((-972) * mn(p, 0, 1, 2, 1, 0, 5, 3) + (-5346) * mn(p, 0, 1, 2, 1, 0, 5, 1)))))));
    assert(q == (((-1) * mn(p, 3, 0, 0, 0, 0, 0, 0) + (3) * mn(p, 1, 0, 2, 0, 0, 0, 0)) + ((1) * mn(p, 0, 2, 1, 0, 0, 0, 0) + (-1) * mn(p, 0, 0, 3, 0, 0, 0, 1))));
}

#[verifier::rlimit(100)]
proof fn acc_prod36_c4(p: Pt)
    ensures
        ((((((108) * mn(p, 0, 1, 2, 0, 4, 2, 2) + ((243) * mn(p, 0, 1, 2, 0, 4, 2, 0) + (-324) * mn(p, 0, 1, 2, 0, 2, 4, 3))) + ((-405) * mn(p, 0, 1, 2, 0, 2, 4, 1) + ((1215) * mn(p, 0, 1, 2, 0, 0, 6, 2) + (-729) * mn(p, 0, 1, 2, 0, 0, 6, 0)))) + (((1701) * mn(p, 0, 0, 3, 5, 1, 0, 1) + ((-972) * mn(p, 0, 0, 3, 4, 1, 1, 2) + (-3402) * mn(p, 0, 0, 3, 4, 1, 1, 0))) + ((-27) * mn(p, 0, 0, 3, 3, 3, 0, 2) + ((54) * mn(p, 0, 0, 3, 3, 3, 0, 0) + (243) * mn(p, 0, 0, 3, 3, 1, 2, 3))))) + ((((-3402) * mn(p, 0, 0, 3, 3, 1, 2, 1) + ((-1539) * mn(p, 0, 0, 3, 2, 3, 1, 1) + (3402) * mn(p, 0, 0, 3, 2, 1, 3, 2))) + ((10692) * mn(p, 0, 0, 3, 2, 1, 3, 0) + ((972) * mn(p, 0, 0, 3, 1, 3, 2, 2) + (2430) * mn(p, 0, 0, 3, 1, 3, 2, 0)))) + (((-972) * mn(p, 0, 0, 3, 1, 1, 4, 3) + ((-7047) * mn(p, 0, 0, 3, 1, 1, 4, 1) + (-216) * mn(p, 0, 0, 3, 0, 3, 3, 3))) + ((-729) * mn(p, 0, 0, 3, 0, 3, 3, 1) + ((1944) * mn(p, 0, 0, 3, 0, 1, 5, 2) + (-1458) * mn(p, 0, 0, 3, 0, 1, 5, 0))))))) * ((((-1) * mn(p, 3, 0, 0, 0, 0, 0, 0) + (3) * mn(p, 1, 0, 2, 0, 0, 0, 0)) + ((1) * mn(p, 0, 2, 1, 0, 0, 0, 0) + (-1) * mn(p, 0, 0, 3, 0, 0, 0, 1)))) == (((((((-108) * mn(p, 3, 1, 2, 0, 4, 2, 2) + ((-243) * mn(p, 3, 1, 2, 0, 4, 2, 0) + (324) * mn(p, 3, 1, 2, 0, 2, 4, 3))) + ((405) * mn(p, 3, 1, 2, 0, 2, 4, 1) + ((-1215) * mn(p, 3, 1, 2, 0, 0, 6, 2) + (729) * mn(p, 3, 1, 2, 0, 0, 6, 0)))) + (((-1701) * mn(p, 3, 0, 3, 5, 1, 0, 1) + ((972) * mn(p, 3, 0, 3, 4, 1, 1, 2) + (3402) * mn(p, 3, 0, 3, 4, 1, 1, 0))) + ((27) * mn(p, 3, 0, 3, 3, 3, 0, 2) + ((-54) * mn(p, 3, 0, 3, 3, 3, 0, 0) + (-243) * mn(p, 3, 0, 3, 3, 1, 2, 3))))) + ((((3402) * mn(p, 3, 0, 3, 3, 1, 2, 1) + ((1539) * mn(p, 3, 0, 3, 2, 3, 1, 1) + (-3402) * mn(p, 3, 0, 3, 2, 1, 3, 2))) + ((-10692) * mn(p, 3, 0, 3, 2, 1, 3, 0) + ((-972) * mn(p, 3, 0, 3, 1, 3, 2, 2) + (-2430) * mn(p, 3, 0, 3, 1, 3, 2, 0)))) + (((972) * mn(p, 3, 0, 3, 1, 1, 4, 3) + ((7047) * mn(p, 3, 0, 3, 1, 1, 4, 1) + (216) * mn(p, 3, 0, 3, 0, 3, 3, 3))) + ((729) * mn(p, 3, 0, 3, 0, 3, 3, 1) + ((-1944) * mn(p, 3, 0, 3, 0, 1, 5, 2) + (1458) * mn(p, 3, 0, 3, 0, 1, 5, 0)))))) + (((((324) * mn(p, 1, 1, 4, 0, 4, 2, 2) + ((729) * mn(p, 1, 1, 4, 0, 4, 2, 0) + (-972) * mn(p, 1, 1, 4, 0, 2, 4, 3))) + ((-1215) * mn(p, 1, 1, 4, 0, 2, 4, 1) + ((3645) * mn(p, 1, 1, 4, 0, 0, 6, 2) + (-2187) * mn(p, 1, 1, 4, 0, 0, 6, 0)))) + (((5103) * mn(p, 1, 0, 5, 5, 1, 0, 1) + ((-2916) * mn(p, 1, 0, 5, 4, 1, 1, 2) + (-10206) * mn(p, 1, 0, 5, 4, 1, 1, 0))) + ((-81) * mn(p, 1, 0, 5, 3, 3, 0, 2) + ((162) * mn(p, 1, 0, 5, 3, 3, 0, 0) + (729) * mn(p, 1, 0, 5, 3, 1, 2, 3))))) + ((((-10206) * mn(p, 1, 0, 5, 3, 1, 2, 1) + ((-4617) * mn(p, 1, 0, 5, 2, 3, 1, 1) + (10206) * mn(p, 1, 0, 5, 2, 1, 3, 2))) + ((32076) * mn(p, 1, 0, 5, 2, 1, 3, 0) + ((2916) * mn(p, 1, 0, 5, 1, 3, 2, 2) + (7290) * mn(p, 1, 0, 5, 1, 3, 2, 0)))) + (((-2916) * mn(p, 1, 0, 5, 1, 1, 4, 3) + ((-21141) * mn(p, 1, 0, 5, 1, 1, 4, 1) + (-648) * mn(p, 1, 0, 5, 0, 3, 3, 3))) + ((-2187) * mn(p, 1, 0, 5, 0, 3, 3, 1) + ((5832) * mn(p, 1, 0, 5, 0, 1, 5, 2) + (-4374) * mn(p, 1, 0, 5, 0, 1, 5, 0))))))) + ((((((108) * mn(p, 0, 3, 3, 0, 4, 2, 2) + ((243) * mn(p, 0, 3, 3, 0, 4, 2, 0) + (-324) * mn(p, 0, 3, 3, 0, 2, 4, 3))) + ((-405) * mn(p, 0, 3, 3, 0, 2, 4, 1) + ((1215) * mn(p, 0, 3, 3, 0, 0, 6, 2) + (-729) * mn(p, 0, 3, 3, 0, 0, 6, 0)))) + (((1701) * mn(p, 0, 2, 4, 5, 1, 0, 1) + ((-972) * mn(p, 0, 2, 4, 4, 1, 1, 2) + (-3402) * mn(p, 0, 2, 4, 4, 1, 1, 0))) + ((-27) * mn(p, 0, 2, 4, 3, 3, 0, 2) + ((54) * mn(p, 0, 2, 4, 3, 3, 0, 0) + (243) * mn(p, 0, 2, 4, 3, 1, 2, 3))))) + ((((-3402) * mn(p, 0, 2, 4, 3, 1, 2, 1) + ((-1539) * mn(p, 0, 2, 4, 2, 3, 1, 1) + (3402) * mn(p, 0, 2, 4, 2, 1, 3, 2))) + ((10692) * mn(p, 0, 2, 4, 2, 1, 3, 0) + ((972) * mn(p, 0, 2, 4, 1, 3, 2, 2) + (2430) * mn(p, 0, 2, 4, 1, 3, 2, 0)))) + (((-972) * mn(p, 0, 2, 4, 1, 1, 4, 3) + ((-7047) * mn(p, 0, 2, 4, 1, 1, 4, 1) + (-216) * mn(p, 0, 2, 4, 0, 3, 3, 3))) + ((-729) * mn(p, 0, 2, 4, 0, 3, 3, 1) + ((1944) * mn(p, 0, 2, 4, 0, 1, 5, 2) + (-1458) * mn(p, 0, 2, 4, 0, 1, 5, 0)))))) + (((((-108) * mn(p, 0, 1, 5, 0, 4, 2, 3) + ((-243) * mn(p, 0, 1, 5, 0, 4, 2, 1) + (324) * mn(p, 0, 1, 5, 0, 2, 4, 4))) + ((405) * mn(p, 0, 1, 5, 0, 2, 4, 2) + ((-1215) * mn(p, 0, 1, 5, 0, 0, 6, 3) + (729) * mn(p, 0, 1, 5, 0, 0, 6, 1)))) + (((-1701) * mn(p, 0, 0, 6, 5, 1, 0, 2) + ((972) * mn(p, 0, 0, 6, 4, 1, 1, 3) + (3402) * mn(p, 0, 0, 6, 4, 1, 1, 1))) + ((27) * mn(p, 0, 0, 6, 3, 3, 0, 3) + ((-54) * mn(p, 0, 0, 6, 3, 3, 0, 1) + (-243) * mn(p, 0, 0, 6, 3, 1, 2, 4))))) + ((((3402) * mn(p, 0, 0, 6, 3, 1, 2, 2) + ((1539) * mn(p, 0, 0, 6, 2, 3, 1, 2) + (-3402) * mn(p, 0, 0, 6, 2, 1, 3, 3))) + ((-10692) * mn(p, 0, 0, 6, 2, 1, 3, 1) + ((-972) * mn(p, 0, 0, 6, 1, 3, 2, 3) + (-2430) * mn(p, 0, 0, 6, 1, 3, 2, 1)))) + (((972) * mn(p, 0, 0, 6, 1, 1, 4, 4) + ((7047) * mn(p, 0, 0, 6, 1, 1, 4, 2) + (216) * mn(p, 0, 0, 6, 0, 3, 3, 4))) + ((729) * mn(p, 0, 0, 6, 0, 3, 3, 2) + ((-1944) * mn(p, 0, 0, 6, 0, 1, 5, 3) + (1458) * mn(p, 0, 0, 6, 0, 1, 5, 1)))))))),
{
    let t0 = (108) * mn(p, 0, 1, 2, 0, 4, 2, 2);
    let t1 = (243) * mn(p, 0, 1, 2, 0, 4, 2, 0);
    let t2 = (-324) * mn(p, 0, 1, 2, 0, 2, 4, 3);
    let t3 = (-405) * mn(p, 0, 1, 2, 0, 2, 4, 1);
    let t4 = (1215) * mn(p, 0, 1, 2, 0, 0, 6, 2);
    let t5 = (-729) * mn(p, 0, 1, 2, 0, 0, 6, 0);
    let t6 = (1701) * mn(p, 0, 0, 3, 5, 1, 0, 1);
    let t7 = (-972) * mn(p, 0, 0, 3, 4, 1, 1, 2);
    let t8 = (-3402) * mn(p, 0, 0, 3, 4, 1, 1, 0);
    let t9 = (-27) * mn(p, 0, 0, 3, 3, 3, 0, 2);
    let t10 = (54) * mn(p, 0, 0, 3, 3, 3, 0, 0);
    let t11 = (243) * mn(p, 0, 0, 3, 3, 1, 2, 3);
    let t12 = (-3402) * mn(p, 0, 0, 3, 3, 1, 2, 1);
    let t13 = (-1539) * mn(p, 0, 0, 3, 2, 3, 1, 1);
    let t14 = (3402) * mn(p, 0, 0, 3, 2, 1, 3, 2);
    let t15 = (10692) * mn(p, 0, 0, 3, 2, 1, 3, 0);
    let t16 = (972) * mn(p, 0, 0, 3, 1, 3, 2, 2);
    let t17 = (2430) * mn(p, 0, 0, 3, 1, 3, 2, 0);
    let t18 = (-972) * mn(p, 0, 0, 3, 1, 1, 4, 3);
    let t19 = (-7047) * mn(p, 0, 0, 3, 1, 1, 4, 1);
    let t20 = (-216) * mn(p, 0, 0, 3, 0, 3, 3, 3);
    let t21 = (-729) * mn(p, 0, 0, 3, 0, 3, 3, 1);
    let t22 = (1944) * mn(p, 0, 0, 3, 0, 1, 5, 2);
    let t23 = (-1458) * mn(p, 0, 0, 3, 0, 1, 5, 0);
    let s0 = (-1) * mn(p, 3, 0, 0, 0, 0, 0, 0);
    let s1 = (3) * mn(p, 1, 0, 2, 0, 0, 0, 0);
    let s2 = (1) * mn(p, 0, 2, 1, 0, 0, 0, 0);
    let s3 = (-1) * mn(p, 0, 0, 3, 0, 0, 0, 1);
    let pp0 = t0;
    let pp1 = pp0 + t1;
    let pp2 = pp1 + t2;
    let pp3 = pp2 + t3;
    let pp4 = pp3 + t4;
    let pp5 = pp4 + t5;
    let pp6 = pp5 + t6;
    let pp7 = pp6 + t7;
    let pp8 = pp7 + t8;
    let pp9 = pp8 + t9;
    let pp10 = pp9 + t10;
    let pp11 = pp10 + t11;
    let pp12 = pp11 + t12;
    let pp13 = pp12 + t13;
    let pp14 = pp13 + t14;
    let pp15 = pp14 + t15;
    let pp16 = pp15 + t16;
    let pp17 = pp16 + t17;
    let pp18 = pp17 + t18;
    let pp19 = pp18 + t19;
    let pp20 = pp19 + t20;
    let pp21 = pp20 + t21;
    let pp22 = pp21 + t22;
    let pp23 = pp22 + t23;
    let qq0 = s0;
    let qq1 = qq0 + s1;
    let qq2 = qq1 + s2;
    let qq3 = qq2 + s3;
    let q = qq3;
    lemma_mul_is_distributive_add_other_way(q, pp0, t1);
    lemma_mul_is_distributive_add_other_way(q, pp1, t2);
    lemma_mul_is_distributive_add_other_way(q, pp2, t3);
    lemma_mul_is_distributive_add_other_way(q, pp3, t4);
    lemma_mul_is_distributive_add_other_way(q, pp4, t5);
    lemma_mul_is_distributive_add_other_way(q, pp5, t6);
    lemma_mul_is_distributive_add_other_way(q, pp6, t7);
    lemma_mul_is_distributive_add_other_way(q, pp7, t8);
    lemma_mul_is_distributive_add_other_way(q, pp8, t9);
    lemma_mul_is_distributive_add_other_way(q, pp9, t10);
    lemma_mul_is_distributive_add_other_way(q, pp10, t11);
    lemma_mul_is_distributive_add_other_way(q, pp11, t12);
    lemma_mul_is_distributive_add_other_way(q, pp12, t13);
    lemma_mul_is_distributive_add_other_way(q, pp13, t14);
    lemma_mul_is_distributive_add_other_way(q, pp14, t15);
    lemma_mul_is_distributive_add_other_way(q, pp15, t16);
    lemma_mul_is_distributive_add_other_way(q, pp16, t17);
    lemma_mul_is_distributive_add_other_way(q, pp17, t18);
    lemma_mul_is_distributive_add_other_way(q, pp18, t19);
    lemma_mul_is_distributive_add_other_way(q, pp19, t20);
    lemma_mul_is_distributive_add_other_way(q, pp20, t21);
    lemma_mul_is_distributive_add_other_way(q, pp21, t22);
    lemma_mul_is_distributive_add_other_way(q, pp22, t23);
    lemma_mul_is_distributive_add(t0, qq0, s1);
    lemma_mul_is_distributive_add(t0, qq1, s2);
    lemma_mul_is_distributive_add(t0, qq2, s3);
    lemma_mul_is_distributive_add(t1, qq0, s1);
    lemma_mul_is_distributive_add(t1, qq1, s2);
    lemma_mul_is_distributive_add(t1, qq2, s3);
    lemma_mul_is_distributive_add(t2, qq0, s1);
    lemma_mul_is_distributive_add(t2, qq1, s2);
    lemma_mul_is_distributive_add(t2, qq2, s3);
    lemma_mul_is_distributive_add(t3, qq0, s1);
    lemma_mul_is_distributive_add(t3, qq1, s2);
    lemma_mul_is_distributive_add(t3, qq2, s3);
    lemma_mul_is_distributive_add(t4, qq0, s1);
    lemma_mul_is_distributive_add(t4, qq1, s2);
    lemma_mul_is_distributive_add(t4, qq2, s3);
    lemma_mul_is_distributive_add(t5, qq0, s1);
    lemma_mul_is_distributive_add(t5, qq1, s2);
    lemma_mul_is_distributive_add(t5, qq2, s3);
    lemma_mul_is_distributive_add(t6, qq0, s1);
    lemma_mul_is_distributive_add(t6, qq1, s2);
    lemma_mul_is_distributive_add(t6, qq2, s3);
    lemma_mul_is_distributive_add(t7, qq0, s1);
    lemma_mul_is_distributive_add(t7, qq1, s2);
    lemma_mul_is_distributive_add(t7, qq2, s3);
    lemma_mul_is_distributive_add(t8, qq0, s1);
    lemma_mul_is_distributive_add(t8, qq1, s2);
    lemma_mul_is_distributive_add(t8, qq2, s3);
    lemma_mul_is_distributive_add(t9, qq0, s1);
    lemma_mul_is_distributive_add(t9, qq1, s2);
    lemma_mul_is_distributive_add(t9, qq2, s3);
    lemma_mul_is_distributive_add(t10, qq0, s1);
    lemma_mul_is_distributive_add(t10, qq1, s2);
    lemma_mul_is_distributive_add(t10, qq2, s3);
    lemma_mul_is_distributive_add(t11, qq0, s1);
    lemma_mul_is_distributive_add(t11, qq1, s2);
    lemma_mul_is_distributive_add(t11, qq2, s3);
    lemma_mul_is_distributive_add(t12, qq0, s1);
    lemma_mul_is_distributive_add(t12, qq1, s2);
    lemma_mul_is_distributive_add(t12, qq2, s3);
    lemma_mul_is_distributive_add(t13, qq0, s1);
    lemma_mul_is_distributive_add(t13, qq1, s2);
    lemma_mul_is_distributive_add(t13, qq2, s3);
    lemma_mul_is_distributive_add(t14, qq0, s1);
    lemma_mul_is_distributive_add(t14, qq1, s2);
    lemma_mul_is_distributive_add(t14, qq2, s3);
    lemma_mul_is_distributive_add(t15, qq0, s1);
    lemma_mul_is_distributive_add(t15, qq1, s2);
    lemma_mul_is_distributive_add(t15, qq2, s3);
    lemma_mul_is_distributive_add(t16, qq0, s1);
    lemma_mul_is_distributive_add(t16, qq1, s2);
    lemma_mul_is_distributive_add(t16, qq2, s3);
    lemma_mul_is_distributive_add(t17, qq0, s1);
    lemma_mul_is_distributive_add(t17, qq1, s2);
    lemma_mul_is_distributive_add(t17, qq2, s3);
    lemma_mul_is_distributive_add(t18, qq0, s1);
    lemma_mul_is_distributive_add(t18, qq1, s2);
    lemma_mul_is_distributive_add(t18, qq2, s3);
    lemma_mul_is_distributive_add(t19, qq0, s1);
    lemma_mul_is_distributive_add(t19, qq1, s2);
    lemma_mul_is_distributive_add(t19, qq2, s3);
    lemma_mul_is_distributive_add(t20, qq0, s1);
    lemma_mul_is_distributive_add(t20, qq1, s2);
    lemma_mul_is_distributive_add(t20, qq2, s3);
    lemma_mul_is_distributive_add(t21, qq0, s1);
    lemma_mul_is_distributive_add(t21, qq1, s2);
    lemma_mul_is_distributive_add(t21, qq2, s3);
    lemma_mul_is_distributive_add(t22, qq0, s1);
    lemma_mul_is_distributive_add(t22, qq1, s2);
    lemma_mul_is_distributive_add(t22, qq2, s3);
    lemma_mul_is_distributive_add(t23, qq0, s1);
    lemma_mul_is_distributive_add(t23, qq1, s2);
    lemma_mul_is_distributive_add(t23, qq2, s3);
    lemma_tm(p, 108, 0, 1, 2, 0, 4, 2, 2, -1, 3, 0, 0, 0, 0, 0, 0);
    assert(t0 * s0 == (-108) * mn(p, 3, 1, 2, 0, 4, 2, 2));
    lemma_tm(p, 108, 0, 1, 2, 0, 4, 2, 2, 3, 1, 0, 2, 0, 0, 0, 0);
    assert(t0 * s1 == (324) * mn(p, 1, 1, 4, 0, 4, 2, 2));
    lemma_tm(p, 108, 0, 1, 2, 0, 4, 2, 2, 1, 0, 2, 1, 0, 0, 0, 0);
    assert(t0 * s2 == (108) * mn(p, 0, 3, 3, 0, 4, 2, 2));
    lemma_tm(p, 108, 0, 1, 2, 0, 4, 2, 2, -1, 0, 0, 3, 0, 0, 0, 1);
    assert(t0 * s3 == (-108) * mn(p, 0, 1, 5, 0, 4, 2, 3));
    assert(t0 * q == (-108) * mn(p, 3, 1, 2, 0, 4, 2, 2) + (324) * mn(p, 1, 1, 4, 0, 4, 2, 2) + (108) * mn(p, 0, 3, 3, 0, 4, 2, 2) + (-108) * mn(p, 0, 1, 5, 0, 4, 2, 3));
    lemma_tm(p, 243, 0, 1, 2, 0, 4, 2, 0, -1, 3, 0, 0, 0, 0, 0, 0);
    assert(t1 * s0 == (-243) * mn(p, 3, 1, 2, 0, 4, 2, 0));
    lemma_tm(p, 243, 0, 1, 2, 0, 4, 2, 0, 3, 1, 0, 2, 0, 0, 0, 0);
    assert(t1 * s1 == (729) * mn(p, 1, 1, 4, 0, 4, 2, 0));
    lemma_tm(p, 243, 0, 1, 2, 0, 4, 2, 0, 1, 0, 2, 1, 0, 0, 0, 0);
    assert(t1 * s2 == (243) * mn(p, 0, 3, 3, 0, 4, 2, 0));
    lemma_tm(p, 243, 0, 1, 2, 0, 4, 2, 0, -1, 0, 0, 3, 0, 0, 0, 1);
    assert(t1 * s3 == (-243) * mn(p, 0, 1, 5, 0, 4, 2, 1));
    assert(t1 * q == (-243) * mn(p, 3, 1, 2, 0, 4, 2, 0) + (729) * mn(p, 1, 1, 4, 0, 4, 2, 0) + (243) * mn(p, 0, 3, 3, 0, 4, 2, 0) + (-243) * mn(p, 0, 1, 5, 0, 4, 2, 1));
    lemma_tm(p, -324, 0, 1, 2, 0, 2, 4, 3, -1, 3, 0, 0, 0, 0, 0, 0);
    assert(t2 * s0 == (324) * mn(p, 3, 1, 2, 0, 2, 4, 3));
    lemma_tm(p, -324, 0, 1, 2, 0, 2, 4, 3, 3, 1, 0, 2, 0, 0, 0, 0);
    assert(t2 * s1 == (-972) * mn(p, 1, 1, 4, 0, 2, 4, 3));
    lemma_tm(p, -324, 0, 1, 2, 0, 2, 4, 3, 1, 0, 2, 1, 0, 0, 0, 0);
    assert(t2 * s2 == (-324) * mn(p, 0, 3, 3, 0, 2, 4, 3));
    lemma_tm(p, -324, 0, 1, 2, 0, 2, 4, 3, -1, 0, 0, 3, 0, 0, 0, 1);
    assert(t2 * s3 == (324) * mn(p, 0, 1, 5, 0, 2, 4, 4));
    assert(t2 * q == (324) * mn(p, 3, 1, 2, 0, 2, 4, 3) + (-972) * mn(p, 1, 1, 4, 0, 2, 4, 3) + (-324) * mn(p, 0, 3, 3, 0, 2, 4, 3) + (324) * mn(p, 0, 1, 5, 0, 2, 4, 4));
    lemma_tm(p, -405, 0, 1, 2, 0, 2, 4, 1, -1, 3, 0, 0, 0, 0, 0, 0);
    assert(t3 * s0 == (405) * mn(p, 3, 1, 2, 0, 2, 4, 1));
    lemma_tm(p, -405, 0, 1, 2, 0, 2, 4, 1, 3, 1, 0, 2, 0, 0, 0, 0);
    assert(t3 * s1 == (-1215) * mn(p, 1, 1, 4, 0, 2, 4, 1));
    lemma_tm(p, -405, 0, 1, 2, 0, 2, 4, 1, 1, 0, 2, 1, 0, 0, 0, 0);
    assert(t3 * s2 == (-405) * mn(p, 0, 3, 3, 0, 2, 4, 1));
    lemma_tm(p, -405, 0, 1, 2, 0, 2, 4, 1, -1, 0, 0, 3, 0, 0, 0, 1);
    assert(t3 * s3 == (405) * mn(p, 0, 1, 5, 0, 2, 4, 2));
    assert(t3 * q == (405) * mn(p, 3, 1, 2, 0, 2, 4, 1) + (-1215) * mn(p, 1, 1, 4, 0, 2, 4, 1) + (-405) * mn(p, 0, 3, 3, 0, 2, 4, 1) + (405) * mn(p, 0, 1, 5, 0, 2, 4, 2));
    lemma_tm(p, 1215, 0, 1, 2, 0, 0, 6, 2, -1, 3, 0, 0, 0, 0, 0, 0);
    assert(t4 * s0 == (-1215) * mn(p, 3, 1, 2, 0, 0, 6, 2));
    lemma_tm(p, 1215, 0, 1, 2, 0, 0, 6, 2, 3, 1, 0, 2, 0, 0, 0, 0);
    assert(t4 * s1 == (3645) * mn(p, 1, 1, 4, 0, 0, 6, 2));
    lemma_tm(p, 1215, 0, 1, 2, 0, 0, 6, 2, 1, 0, 2, 1, 0, 0, 0, 0);
    assert(t4 * s2 == (1215) * mn(p, 0, 3, 3, 0, 0, 6, 2));
    lemma_tm(p, 1215, 0, 1, 2, 0, 0, 6, 2, -1, 0, 0, 3, 0, 0, 0, 1);
    assert(t4 * s3 == (-1215) * mn(p, 0, 1, 5, 0, 0, 6, 3));
    assert(t4 * q == (-1215) * mn(p, 3, 1, 2, 0, 0, 6, 2) + (3645) * mn(p, 1, 1, 4, 0, 0, 6, 2) + (1215) * mn(p, 0, 3, 3, 0, 0, 6, 2) + (-1215) * mn(p, 0, 1, 5, 0, 0, 6, 3));
    lemma_tm(p, -729, 0, 1, 2, 0, 0, 6, 0, -1, 3, 0, 0, 0, 0, 0, 0);
    assert(t5 * s0 == (729) * mn(p, 3, 1, 2, 0, 0, 6, 0));
    lemma_tm(p, -729, 0, 1, 2, 0, 0, 6, 0, 3, 1, 0, 2, 0, 0, 0, 0);
    assert(t5 * s1 == (-2187) * mn(p, 1, 1, 4, 0, 0, 6, 0));
    lemma_tm(p, -729, 0, 1, 2, 0, 0, 6, 0, 1, 0, 2, 1, 0, 0, 0, 0);
    assert(t5 * s2 == (-729) * mn(p, 0, 3, 3, 0, 0, 6, 0));
    lemma_tm(p, -729, 0, 1, 2, 0, 0, 6, 0, -1, 0, 0, 3, 0, 0, 0, 1);
    assert(t5 * s3 == (729) * mn(p, 0, 1, 5, 0, 0, 6, 1));
    assert(t5 * q == (729) * mn(p, 3, 1, 2, 0, 0, 6, 0) + (-2187) * mn(p, 1, 1, 4, 0, 0, 6, 0) + (-729) * mn(p, 0, 3, 3, 0, 0, 6, 0) + (729) * mn(p, 0, 1, 5, 0, 0, 6, 1));
    lemma_tm(p, 1701, 0, 0, 3, 5, 1, 0, 1, -1, 3, 0, 0, 0, 0, 0, 0);
    assert(t6 * s0 == (-1701) * mn(p, 3, 0, 3, 5, 1, 0, 1));
    lemma_tm(p, 1701, 0, 0, 3, 5, 1, 0, 1, 3, 1, 0, 2, 0, 0, 0, 0);
    assert(t6 * s1 == (5103) * mn(p, 1, 0, 5, 5, 1, 0, 1));
    lemma_tm(p, 1701, 0, 0, 3, 5, 1, 0, 1, 1, 0, 2, 1, 0, 0, 0, 0);
    assert(t6 * s2 == (1701) * mn(p, 0, 2, 4, 5, 1, 0, 1));
    lemma_tm(p, 1701, 0, 0, 3, 5, 1, 0, 1, -1, 0, 0, 3, 0, 0, 0, 1);
    assert(t6 * s3 == (-1701) * mn(p, 0, 0, 6, 5, 1, 0, 2));
    assert(t6 * q == (-1701) * mn(p, 3, 0, 3, 5, 1, 0, 1) + (5103) * mn(p, 1, 0, 5, 5, 1, 0, 1) + (1701) * mn(p, 0, 2, 4, 5, 1, 0, 1) + (-1701) * mn(p, 0, 0, 6, 5, 1, 0, 2));
    lemma_tm(p, -972, 0, 0, 3, 4, 1, 1, 2, -1, 3, 0, 0, 0, 0, 0, 0);
    assert(t7 * s0 == (972) * mn(p, 3, 0, 3, 4, 1, 1, 2));
    lemma_tm(p, -972, 0, 0, 3, 4, 1, 1, 2, 3, 1, 0, 2, 0, 0, 0, 0);
    assert(t7 * s1 == (-2916) * mn(p, 1, 0, 5, 4, 1, 1, 2));
    lemma_tm(p, -972, 0, 0, 3, 4, 1, 1, 2, 1, 0, 2, 1, 0, 0, 0, 0);
    assert(t7 * s2 == (-972) * mn(p, 0, 2, 4, 4, 1, 1, 2));
    lemma_tm(p, -972, 0, 0, 3, 4, 1, 1, 2, -1, 0, 0, 3, 0, 0, 0, 1);
    assert(t7 * s3 == (972) * mn(p, 0, 0, 6, 4, 1, 1, 3));
    assert(t7 * q == (972) * mn(p, 3, 0, 3, 4, 1, 1, 2) + (-2916) * mn(p, 1, 0, 5, 4, 1, 1, 2) + (-972) * mn(p, 0, 2, 4, 4, 1, 1, 2) + (972) * mn(p, 0, 0, 6, 4, 1, 1, 3));
    lemma_tm(p, -3402, 0, 0, 3, 4, 1, 1, 0, -1, 3, 0, 0, 0, 0, 0, 0);
    assert(t8 * s0 == (3402) * mn(p, 3, 0, 3, 4, 1, 1, 0));
    lemma_tm(p, -3402, 0, 0, 3, 4, 1, 1, 0, 3, 1, 0, 2, 0, 0, 0, 0);
    assert(t8 * s1 == (-10206) * mn(p, 1, 0, 5, 4, 1, 1, 0));
    lemma_tm(p, -3402, 0, 0, 3, 4, 1, 1, 0, 1, 0, 2, 1, 0, 0, 0, 0);
    assert(t8 * s2 == (-3402) * mn(p, 0, 2, 4, 4, 1, 1, 0));
    lemma_tm(p, -3402, 0, 0, 3, 4, 1, 1, 0, -1, 0, 0, 3, 0, 0, 0, 1);
    assert(t8 * s3 == (3402) * mn(p, 0, 0, 6, 4, 1, 1, 1));
    assert(t8 * q == (3402) * mn(p, 3, 0, 3, 4, 1, 1, 0) + (-10206) * mn(p, 1, 0, 5, 4, 1, 1, 0) + (-3402) * mn(p, 0, 2, 4, 4, 1, 1, 0) + (3402) * mn(p, 0, 0, 6, 4, 1, 1, 1));
    lemma_tm(p, -27, 0, 0, 3, 3, 3, 0, 2, -1, 3, 0, 0, 0, 0, 0, 0);
    assert(t9 * s0 == (27) * mn(p, 3, 0, 3, 3, 3, 0, 2));
    lemma_tm(p, -27, 0, 0, 3, 3, 3, 0, 2, 3, 1, 0, 2, 0, 0, 0, 0);
    assert(t9 * s1 == (-81) * mn(p, 1, 0, 5, 3, 3, 0, 2));
    lemma_tm(p, -27, 0, 0, 3, 3, 3, 0, 2, 1, 0, 2, 1, 0, 0, 0, 0);
    assert(t9 * s2 == (-27) * mn(p, 0, 2, 4, 3, 3, 0, 2));
    lemma_tm(p, -27, 0, 0, 3, 3, 3, 0, 2, -1, 0, 0, 3, 0, 0, 0, 1);
    assert(t9 * s3 == (27) * mn(p, 0, 0, 6, 3, 3, 0, 3));
    assert(t9 * q == (27) * mn(p, 3, 0, 3, 3, 3, 0, 2) + (-81) * mn(p, 1, 0, 5, 3, 3, 0, 2) + (-27) * mn(p, 0, 2, 4, 3, 3, 0, 2) + (27) * mn(p, 0, 0, 6, 3, 3, 0, 3));
    lemma_tm(p, 54, 0, 0, 3, 3, 3, 0, 0, -1, 3, 0, 0, 0, 0, 0, 0);
    assert(t10 * s0 == (-54) * mn(p, 3, 0, 3, 3, 3, 0, 0));
    lemma_tm(p, 54, 0, 0, 3, 3, 3, 0, 0, 3, 1, 0, 2, 0, 0, 0, 0);
    assert(t10 * s1 == (162) * mn(p, 1, 0, 5, 3, 3, 0, 0));
    lemma_tm(p, 54, 0, 0, 3, 3, 3, 0, 0, 1, 0, 2, 1, 0, 0, 0, 0);
    assert(t10 * s2 == (54) * mn(p, 0, 2, 4, 3, 3, 0, 0));
    lemma_tm(p, 54, 0, 0, 3, 3, 3, 0, 0, -1, 0, 0, 3, 0, 0, 0, 1);
    assert(t10 * s3 == (-54) * mn(p, 0, 0, 6, 3, 3, 0, 1));
    assert(t10 * q == (-54) * mn(p, 3, 0, 3, 3, 3, 0, 0) + (162) * mn(p, 1, 0, 5, 3, 3, 0, 0) + (54) * mn(p, 0, 2, 4, 3, 3, 0, 0) + (-54) * mn(p, 0, 0, 6, 3, 3, 0, 1));
    lemma_tm(p, 243, 0, 0, 3, 3, 1, 2, 3, -1, 3, 0, 0, 0, 0, 0, 0);
    assert(t11 * s0 == (-243) * mn(p, 3, 0, 3, 3, 1, 2, 3));
    lemma_tm(p, 243, 0, 0, 3, 3, 1, 2, 3, 3, 1, 0, 2, 0, 0, 0, 0);
    assert(t11 * s1 == (729) * mn(p, 1, 0, 5, 3, 1, 2, 3));
    lemma_tm(p, 243, 0, 0, 3, 3, 1, 2, 3, 1, 0, 2, 1, 0, 0, 0, 0);
    assert(t11 * s2 == (243) * mn(p, 0, 2, 4, 3, 1, 2, 3));
    lemma_tm(p, 243, 0, 0, 3, 3, 1, 2, 3, -1, 0, 0, 3, 0, 0, 0, 1);
    assert(t11 * s3 == (-243) * mn(p, 0, 0, 6, 3, 1, 2, 4));
    assert(t11 * q == (-243) * mn(p, 3, 0, 3, 3, 1, 2, 3) + (729) * mn(p, 1, 0, 5, 3, 1, 2, 3) + (243) * mn(p, 0, 2, 4, 3, 1, 2, 3) + (-243) * mn(p, 0, 0, 6, 3, 1, 2, 4));
    lemma_tm(p, -3402, 0, 0, 3, 3, 1, 2, 1, -1, 3, 0, 0, 0, 0, 0, 0);
    assert(t12 * s0 == (3402) * mn(p, 3, 0, 3, 3, 1, 2, 1));
    lemma_tm(p, -3402, 0, 0, 3, 3, 1, 2, 1, 3, 1, 0, 2, 0, 0, 0, 0);
    assert(t12 * s1 == (-10206) * mn(p, 1, 0, 5, 3, 1, 2, 1));
    lemma_tm(p, -3402, 0, 0, 3, 3, 1, 2, 1, 1, 0, 2, 1, 0, 0, 0, 0);
    assert(t12 * s2 == (-3402) * mn(p, 0, 2, 4, 3, 1, 2, 1));
    lemma_tm(p, -3402, 0, 0, 3, 3, 1, 2, 1, -1, 0, 0, 3, 0, 0, 0, 1);
    assert(t12 * s3 == (3402) * mn(p, 0, 0, 6, 3, 1, 2, 2));
    assert(t12 * q == (3402) * mn(p, 3, 0, 3, 3, 1, 2, 1) + (-10206) * mn(p, 1, 0, 5, 3, 1, 2, 1) + (-3402) * mn(p, 0, 2, 4, 3, 1, 2, 1) + (3402) * mn(p, 0, 0, 6, 3, 1, 2, 2));
    lemma_tm(p, -1539, 0, 0, 3, 2, 3, 1, 1, -1, 3, 0, 0, 0, 0, 0, 0);
    assert(t13 * s0 == (1539) * mn(p, 3, 0, 3, 2, 3, 1, 1));
    lemma_tm(p, -1539, 0, 0, 3, 2, 3, 1, 1, 3, 1, 0, 2, 0, 0, 0, 0);
    assert(t13 * s1 == (-4617) * mn(p, 1, 0, 5, 2, 3, 1, 1));
    lemma_tm(p, -1539, 0, 0, 3, 2, 3, 1, 1, 1, 0, 2, 1, 0, 0, 0, 0);
    assert(t13 * s2 == (-1539) * mn(p, 0, 2, 4, 2, 3, 1, 1));
    lemma_tm(p, -1539, 0, 0, 3, 2, 3, 1, 1, -1, 0, 0, 3, 0, 0, 0, 1);
    assert(t13 * s3 == (1539) * mn(p, 0, 0, 6, 2, 3, 1, 2));
    assert(t13 * q == (1539) * mn(p, 3, 0, 3, 2, 3, 1, 1) + (-4617) * mn(p, 1, 0, 5, 2, 3, 1, 1) + (-1539) * mn(p, 0, 2, 4, 2, 3, 1, 1) + (1539) * mn(p, 0, 0, 6, 2, 3, 1, 2));
    lemma_tm(p, 3402, 0, 0, 3, 2, 1, 3, 2, -1, 3, 0, 0, 0, 0, 0, 0);
    assert(t14 * s0 == (-3402) * mn(p, 3, 0, 3, 2, 1, 3, 2));
    lemma_tm(p, 3402, 0, 0, 3, 2, 1, 3, 2, 3, 1, 0, 2, 0, 0, 0, 0);
    assert(t14 * s1 == (10206) * mn(p, 1, 0, 5, 2, 1, 3, 2));
    lemma_tm(p, 3402, 0, 0, 3, 2, 1, 3, 2, 1, 0, 2, 1, 0, 0, 0, 0);
    assert(t14 * s2 == (3402) * mn(p, 0, 2, 4, 2, 1, 3, 2));
    lemma_tm(p, 3402, 0, 0, 3, 2, 1, 3, 2, -1, 0, 0, 3, 0, 0, 0, 1);
    assert(t14 * s3 == (-3402) * mn(p, 0, 0, 6, 2, 1, 3, 3));
    assert(t14 * q == (-3402) * mn(p, 3, 0, 3, 2, 1, 3, 2) + (10206) * mn(p, 1, 0, 5, 2, 1, 3, 2) + (3402) * mn(p, 0, 2, 4, 2, 1, 3, 2) + (-3402) * mn(p, 0, 0, 6, 2, 1, 3, 3));
    lemma_tm(p, 10692, 0, 0, 3, 2, 1, 3, 0, -1, 3, 0, 0, 0, 0, 0, 0);
    assert(t15 * s0 == (-10692) * mn(p, 3, 0, 3, 2, 1, 3, 0));
    lemma_tm(p, 10692, 0, 0, 3, 2, 1, 3, 0, 3, 1, 0, 2, 0, 0, 0, 0);
    assert(t15 * s1 == (32076) * mn(p, 1, 0, 5, 2, 1, 3, 0));
    lemma_tm(p, 10692, 0, 0, 3, 2, 1, 3, 0, 1, 0, 2, 1, 0, 0, 0, 0);
    assert(t15 * s2 == (10692) * mn(p, 0, 2, 4, 2, 1, 3, 0));
    lemma_tm(p, 10692, 0, 0, 3, 2, 1, 3, 0, -1, 0, 0, 3, 0, 0, 0, 1);
    assert(t15 * s3 == (-10692) * mn(p, 0, 0, 6, 2, 1, 3, 1));
    assert(t15 * q == (-10692) * mn(p, 3, 0, 3, 2, 1, 3, 0) + (32076) * mn(p, 1, 0, 5, 2, 1, 3, 0) + (10692) * mn(p, 0, 2, 4, 2, 1, 3, 0) + (-10692) * mn(p, 0, 0, 6, 2, 1, 3, 1));
    lemma_tm(p, 972, 0, 0, 3, 1, 3, 2, 2, -1, 3, 0, 0, 0, 0, 0, 0);
    assert(t16 * s0 == (-972) * mn(p, 3, 0, 3, 1, 3, 2, 2));
    lemma_tm(p, 972, 0, 0, 3, 1, 3, 2, 2, 3, 1, 0, 2, 0, 0, 0, 0);
    assert(t16 * s1 == (2916) * mn(p, 1, 0, 5, 1, 3, 2, 2));
    lemma_tm(p, 972, 0, 0, 3, 1, 3, 2, 2, 1, 0, 2, 1, 0, 0, 0, 0);
    assert(t16 * s2 == (972) * mn(p, 0, 2, 4, 1, 3, 2, 2));
    lemma_tm(p, 972, 0, 0, 3, 1, 3, 2, 2, -1, 0, 0, 3, 0, 0, 0, 1);
    assert(t16 * s3 == (-972) * mn(p, 0, 0, 6, 1, 3, 2, 3));
    assert(t16 * q == (-972) * mn(p, 3, 0, 3, 1, 3, 2, 2) + (2916) * mn(p, 1, 0, 5, 1, 3, 2, 2) + (972) * mn(p, 0, 2, 4, 1, 3, 2, 2) + (-972) * mn(p, 0, 0, 6, 1, 3, 2, 3));
    lemma_tm(p, 2430, 0, 0, 3, 1, 3, 2, 0, -1, 3, 0, 0, 0, 0, 0, 0);
    assert(t17 * s0 == (-2430) * mn(p, 3, 0, 3, 1, 3, 2, 0));
    lemma_tm(p, 2430, 0, 0, 3, 1, 3, 2, 0, 3, 1, 0, 2, 0, 0, 0, 0);
    assert(t17 * s1 == (7290) * mn(p, 1, 0, 5, 1, 3, 2, 0));
    lemma_tm(p, 2430, 0, 0, 3, 1, 3, 2, 0, 1, 0, 2, 1, 0, 0, 0, 0);
    assert(t17 * s2 == (2430) * mn(p, 0, 2, 4, 1, 3, 2, 0));
    lemma_tm(p, 2430, 0, 0, 3, 1, 3, 2, 0, -1, 0, 0, 3, 0, 0, 0, 1);
    assert(t17 * s3 == (-2430) * mn(p, 0, 0, 6, 1, 3, 2, 1));
    assert(t17 * q == (-2430) * mn(p, 3, 0, 3, 1, 3, 2, 0) + (7290) * mn(p, 1, 0, 5, 1, 3, 2, 0) + (2430) * mn(p, 0, 2, 4, 1, 3, 2, 0) + (-2430) * mn(p, 0, 0, 6, 1, 3, 2, 1));
    lemma_tm(p, -972, 0, 0, 3, 1, 1, 4, 3, -1, 3, 0, 0, 0, 0, 0, 0);
    assert(t18 * s0 == (972) * mn(p, 3, 0, 3, 1, 1, 4, 3));
    lemma_tm(p, -972, 0, 0, 3, 1, 1, 4, 3, 3, 1, 0, 2, 0, 0, 0, 0);
    assert(t18 * s1 == (-2916) * mn(p, 1, 0, 5, 1, 1, 4, 3));
    lemma_tm(p, -972, 0, 0, 3, 1, 1, 4, 3, 1, 0, 2, 1, 0, 0, 0, 0);
    assert(t18 * s2 == (-972) * mn(p, 0, 2, 4, 1, 1, 4, 3));
    lemma_tm(p, -972, 0, 0, 3, 1, 1, 4, 3, -1, 0, 0, 3, 0, 0, 0, 1);
    assert(t18 * s3 == (972) * mn(p, 0, 0, 6, 1, 1, 4, 4));
    assert(t18 * q == (972) * mn(p, 3, 0, 3, 1, 1, 4, 3) + (-2916) * mn(p, 1, 0, 5, 1, 1, 4, 3) + (-972) * mn(p, 0, 2, 4, 1, 1, 4, 3) + (972) * mn(p, 0, 0, 6, 1, 1, 4, 4));
    lemma_tm(p, -7047, 0, 0, 3, 1, 1, 4, 1, -1, 3, 0, 0, 0, 0, 0, 0);
    assert(t19 * s0 == (7047) * mn(p, 3, 0, 3, 1, 1, 4, 1));
    lemma_tm(p, -7047, 0, 0, 3, 1, 1, 4, 1, 3, 1, 0, 2, 0, 0, 0, 0);
    assert(t19 * s1 == (-21141) * mn(p, 1, 0, 5, 1, 1, 4, 1));
    lemma_tm(p, -7047, 0, 0, 3, 1, 1, 4, 1, 1, 0, 2, 1, 0, 0, 0, 0);
    assert(t19 * s2 == (-7047) * mn(p, 0, 2, 4, 1, 1, 4, 1));
    lemma_tm(p, -7047, 0, 0, 3, 1, 1, 4, 1, -1, 0, 0, 3, 0, 0, 0, 1);
    assert(t19 * s3 == (7047) * mn(p, 0, 0, 6, 1, 1, 4, 2));
    assert(t19 * q == (7047) * mn(p, 3, 0, 3, 1, 1, 4, 1) + (-21141) * mn(p, 1, 0, 5, 1, 1, 4, 1) + (-7047) * mn(p, 0, 2, 4, 1, 1, 4, 1) + (7047) * mn(p, 0, 0, 6, 1, 1, 4, 2));
    lemma_tm(p, -216, 0, 0, 3, 0, 3, 3, 3, -1, 3, 0, 0, 0, 0, 0, 0);
    assert(t20 * s0 == (216) * mn(p, 3, 0, 3, 0, 3, 3, 3));
    lemma_tm(p, -216, 0, 0, 3, 0, 3, 3, 3, 3, 1, 0, 2, 0, 0, 0, 0);
    assert(t20 * s1 == (-648) * mn(p, 1, 0, 5, 0, 3, 3, 3));
    lemma_tm(p, -216, 0, 0, 3, 0, 3, 3, 3, 1, 0, 2, 1, 0, 0, 0, 0);
    assert(t20 * s2 == (-216) * mn(p, 0, 2, 4, 0, 3, 3, 3));
    lemma_tm(p, -216, 0, 0, 3, 0, 3, 3, 3, -1, 0, 0, 3, 0, 0, 0, 1);
    assert(t20 * s3 == (216) * mn(p, 0, 0, 6, 0, 3, 3, 4));
    assert(t20 * q == (216) * mn(p, 3, 0, 3, 0, 3, 3, 3) + (-648) * mn(p, 1, 0, 5, 0, 3, 3, 3) + (-216) * mn(p, 0, 2, 4, 0, 3, 3, 3) + (216) * mn(p, 0, 0, 6, 0, 3, 3, 4));
    lemma_tm(p, -729, 0, 0, 3, 0, 3, 3, 1, -1, 3, 0, 0, 0, 0, 0, 0);
    assert(t21 * s0 == (729) * mn(p, 3, 0, 3, 0, 3, 3, 1));
    lemma_tm(p, -729, 0, 0, 3, 0, 3, 3, 1, 3, 1, 0, 2, 0, 0, 0, 0);
    assert(t21 * s1 == (-2187) * mn(p, 1, 0, 5, 0, 3, 3, 1));
    lemma_tm(p, -729, 0, 0, 3, 0, 3, 3, 1, 1, 0, 2, 1, 0, 0, 0, 0);
    assert(t21 * s2 == (-729) * mn(p, 0, 2, 4, 0, 3, 3, 1));
    lemma_tm(p, -729, 0, 0, 3, 0, 3, 3, 1, -1, 0, 0, 3, 0, 0, 0, 1);
    assert(t21 * s3 == (729) * mn(p, 0, 0, 6, 0, 3, 3, 2));
    assert(t21 * q == (729) * mn(p, 3, 0, 3, 0, 3, 3, 1) + (-2187) * mn(p, 1, 0, 5, 0, 3, 3, 1) + (-729) * mn(p, 0, 2, 4, 0, 3, 3, 1) + (729) * mn(p, 0, 0, 6, 0, 3, 3, 2));
    lemma_tm(p, 1944, 0, 0, 3, 0, 1, 5, 2, -1, 3, 0, 0, 0, 0, 0, 0);
    assert(t22 * s0 == (-1944) * mn(p, 3, 0, 3, 0, 1, 5, 2));
    lemma_tm(p, 1944, 0, 0, 3, 0, 1, 5, 2, 3, 1, 0, 2, 0, 0, 0, 0);
    assert(t22 * s1 == (5832) * mn(p, 1, 0, 5, 0, 1, 5, 2));
    lemma_tm(p, 1944, 0, 0, 3, 0, 1, 5, 2, 1, 0, 2, 1, 0, 0, 0, 0);
    assert(t22 * s2 == (1944) * mn(p, 0, 2, 4, 0, 1, 5, 2));
    lemma_tm(p, 1944, 0, 0, 3, 0, 1, 5, 2, -1, 0, 0, 3, 0, 0, 0, 1);
    assert(t22 * s3 == (-1944) * mn(p, 0, 0, 6, 0, 1, 5, 3));
    assert(t22 * q == (-1944) * mn(p, 3, 0, 3, 0, 1, 5, 2) + (5832) * mn(p, 1, 0, 5, 0, 1, 5, 2) + (1944) * mn(p, 0, 2, 4, 0, 1, 5, 2) + (-1944) * mn(p, 0, 0, 6, 0, 1, 5, 3));
    lemma_tm(p, -1458, 0, 0, 3, 0, 1, 5, 0, -1, 3, 0, 0, 0, 0, 0, 0);
    assert(t23 * s0 == (1458) * mn(p, 3, 0, 3, 0, 1, 5, 0));
    lemma_tm(p, -1458, 0, 0, 3, 0, 1, 5, 0, 3, 1, 0, 2, 0, 0, 0, 0);
    assert(t23 * s1 == (-4374) * mn(p, 1, 0, 5, 0, 1, 5, 0));
    lemma_tm(p, -1458, 0, 0, 3, 0, 1, 5, 0, 1, 0, 2, 1, 0, 0, 0, 0);
    assert(t23 * s2 == (-1458) * mn(p, 0, 2, 4, 0, 1, 5, 0));
    lemma_tm(p, -1458, 0, 0, 3, 0, 1, 5, 0, -1, 0, 0, 3, 0, 0, 0, 1);
    assert(t23 * s3 == (1458) * mn(p, 0, 0, 6, 0, 1, 5, 1));
    assert(t23 * q == (1458) * mn(p, 3, 0, 3, 0, 1, 5, 0) + (-4374) * mn(p, 1, 0, 5, 0, 1, 5, 0) + (-1458) * mn(p, 0, 2, 4, 0, 1, 5, 0) + (1458) * mn(p, 0, 0, 6, 0, 1, 5, 1));
    assert(pp23 * q == (((((((-108) * mn(p, 3, 1, 2, 0, 4, 2, 2) + ((-243) * mn(p, 3, 1, 2, 0, 4, 2, 0) + (324) * mn(p, 3, 1, 2, 0, 2, 4, 3))) + ((405) * mn(p, 3, 1, 2, 0, 2, 4, 1) + ((-1215) * mn(p, 3, 1, 2, 0, 0, 6, 2) + (729) * mn(p, 3, 1, 2, 0, 0, 6, 0)))) + (((-1701) * mn(p, 3, 0, 3, 5, 1, 0, 1) + ((972) * mn(p, 3, 0, 3, 4, 1, 1, 2) + (3402) * mn(p, 3, 0, 3, 4, 1, 1, 0))) + ((27) * mn(p, 3, 0, 3, 3, 3, 0, 2) + ((-54) * mn(p, 3, 0, 3, 3, 3, 0, 0) + (-243) * mn(p, 3, 0, 3, 3, 1, 2, 3))))) + ((((3402) * mn(p, 3, 0, 3, 3, 1, 2, 1) + ((1539) * mn(p, 3, 0, 3, 2, 3, 1, 1) + (-3402) * mn(p, 3, 0, 3, 2, 1, 3, 2))) + ((-10692) * mn(p, 3, 0, 3, 2, 1, 3, 0) + ((-972) * mn(p, 3, 0, 3, 1, 3, 2, 2) + (-2430) * mn(p, 3, 0, 3, 1, 3, 2, 0)))) + (((972) * mn(p, 3, 0, 3, 1, 1, 4, 3) + ((7047) * mn(p, 3, 0, 3, 1, 1, 4, 1) + (216) * mn(p, 3, 0, 3, 0, 3, 3, 3))) + ((729) * mn(p, 3, 0, 3, 0, 3, 3, 1) + ((-1944) * mn(p, 3, 0, 3, 0, 1, 5, 2) + (1458) * mn(p, 3, 0, 3, 0, 1, 5, 0)))))) + (((((324) * mn(p, 1, 1, 4, 0, 4, 2, 2) + ((729) * mn(p, 1, 1, 4, 0, 4, 2, 0) + (-972) * mn(p, 1, 1, 4, 0, 2, 4, 3))) + ((-1215) * mn(p, 1, 1, 4, 0, 2, 4, 1) + ((3645) * mn(p, 1, 1, 4, 0, 0, 6, 2) + (-2187) * mn(p, 1, 1, 4, 0, 0, 6, 0)))) + (((5103) * mn(p, 1, 0, 5, 5, 1, 0, 1) + ((-2916) * mn(p, 1, 0, 5, 4, 1, 1, 2) + (-10206) * mn(p, 1, 0, 5, 4, 1, 1, 0))) + ((-81) * mn(p, 1, 0, 5, 3, 3, 0, 2) + ((162) * mn(p, 1, 0, 5, 3, 3, 0, 0) + (729) * mn(p, 1, 0, 5, 3, 1, 2, 3))))) + ((((-10206) * mn(p, 1, 0, 5, 3, 1, 2, 1) + ((-4617) * mn(p, 1, 0, 5, 2, 3, 1, 1) + (10206) * mn(p, 1, 0, 5, 2, 1, 3, 2))) + ((32076) * mn(p, 1, 0, 5, 2, 1, 3, 0) + ((2916) * mn(p, 1, 0, 5, 1, 3, 2, 2) + (7290) * mn(p, 1, 0, 5, 1, 3, 2, 0)))) + (((-2916) * mn(p, 1, 0, 5, 1, 1, 4, 3) + ((-21141) * mn(p, 1, 0, 5, 1, 1, 4, 1) + (-648) * mn(p, 1, 0, 5, 0, 3, 3, 3))) + ((-2187) * mn(p, 1, 0, 5, 0, 3, 3, 1) + ((5832) * mn(p, 1, 0, 5, 0, 1, 5, 2) + (-4374) * mn(p, 1, 0, 5, 0, 1, 5, 0))))))) + ((((((108) * mn(p, 0, 3, 3, 0, 4, 2, 2) + ((243) * mn(p, 0, 3, 3, 0, 4, 2, 0) + (-324) * mn(p, 0, 3, 3, 0, 2, 4, 3))) + ((-405) * mn(p, 0, 3, 3, 0, 2, 4, 1) + ((1215) * mn(p, 0, 3, 3, 0, 0, 6, 2) + (-729) * mn(p, 0, 3, 3, 0, 0, 6, 0)))) + (((1701) * mn(p, 0, 2, 4, 5, 1, 0, 1) + ((-972) * mn(p, 0, 2, 4, 4, 1, 1, 2) + (-3402) * mn(p, 0, 2, 4, 4, 1, 1, 0))) + ((-27) * mn(p, 0, 2, 4, 3, 3, 0, 2) + ((54) * mn(p, 0, 2, 4, 3, 3, 0, 0) + (243) * mn(p, 0, 2, 4, 3, 1, 2, 3))))) + ((((-3402) * mn(p, 0, 2, 4, 3, 1, 2, 1) + ((-1539) * mn(p, 0, 2, 4, 2, 3, 1, 1) + (3402) * mn(p, 0, 2, 4, 2, 1, 3, 2))) + ((10692) * mn(p, 0, 2, 4, 2, 1, 3, 0) + ((972) * mn(p, 0, 2, 4, 1, 3, 2, 2) + (2430) * mn(p, 0, 2, 4, 1, 3, 2, 0)))) + (((-972) * mn(p, 0, 2, 4, 1, 1, 4, 3) + ((-7047) * mn(p, 0, 2, 4, 1, 1, 4, 1) + (-216) * mn(p, 0, 2, 4, 0, 3, 3, 3))) + ((-729) * mn(p, 0, 2, 4, 0, 3, 3, 1) + ((1944) * mn(p, 0, 2, 4, 0, 1, 5, 2) + (-1458) * mn(p, 0, 2, 4, 0, 1, 5, 0)))))) + (((((-108) * mn(p, 0, 1, 5, 0, 4, 2, 3) + ((-243) * mn(p, 0, 1, 5, 0, 4, 2, 1) + (324) * mn(p, 0, 1, 5, 0, 2, 4, 4))) + ((405) * mn(p, 0, 1, 5, 0, 2, 4, 2) + ((-1215) * mn(p, 0, 1, 5, 0, 0, 6, 3) + (729) * mn(p, 0, 1, 5, 0, 0, 6, 1)))) + (((-1701) * mn(p, 0, 0, 6, 5, 1, 0, 2) + ((972) * mn(p, 0, 0, 6, 4, 1, 1, 3) + (3402) * mn(p, 0, 0, 6, 4, 1, 1, 1))) + ((27) * mn(p, 0, 0, 6, 3, 3, 0, 3) + ((-54) * mn(p, 0, 0, 6, 3, 3, 0, 1) + (-243) * mn(p, 0, 0, 6, 3, 1, 2, 4))))) + ((((3402) * mn(p, 0, 0, 6, 3, 1, 2, 2) + ((1539) * mn(p, 0, 0, 6, 2, 3, 1, 2) + (-3402) * mn(p, 0, 0, 6, 2, 1, 3, 3))) + ((-10692) * mn(p, 0, 0, 6, 2, 1, 3, 1) + ((-972) * mn(p, 0, 0, 6, 1, 3, 2, 3) + (-2430) * mn(p, 0, 0, 6, 1, 3, 2, 1)))) + (((972) * mn(p, 0, 0, 6, 1, 1, 4, 4) + ((7047) * mn(p, 0, 0, 6, 1, 1, 4, 2) + (216) * mn(p, 0, 0, 6, 0, 3, 3, 4))) + ((729) * mn(p, 0, 0, 6, 0, 3, 3, 2) + ((-1944) * mn(p, 0, 0, 6, 0, 1, 5, 3) + (1458) * mn(p, 0, 0, 6, 0, 1, 5, 1)))))))));
    assert(pp23 == (((((108) * mn(p, 0, 1, 2, 0, 4, 2, 2) + ((243) * mn(p, 0, 1, 2, 0, 4, 2, 0) + (-324) * mn(p, 0, 1, 2, 0, 2, 4, 3))) + ((-405) * mn(p, 0, 1, 2, 0, 2, 4, 1) + ((1215) * mn(p, 0, 1, 2, 0, 0, 6, 2) + (-729) * mn(p, 0, 1, 2, 0, 0, 6, 0)))) + (((1701) * mn(p, 0, 0, 3, 5, 1, 0, 1) + ((-972) * mn(p, 0, 0, 3, 4, 1, 1, 2) + (-3402) * mn(p, 0, 0, 3, 4, 1, 1, 0))) + ((-27) * mn(p, 0, 0, 3, 3, 3, 0, 2) + ((54) * mn(p, 0, 0, 3, 3, 3, 0, 0) + (243) * mn(p, 0, 0, 3, 3, 1, 2, 3))))) + ((((-3402) * mn(p, 0, 0, 3, 3, 1, 2, 1) + ((-1539) * mn(p, 0, 0, 3, 2, 3, 1, 1) + (3402) * mn(p, 0, 0, 3, 2, 1, 3, 2))) + ((10692) * mn(p, 0, 0, 3, 2, 1, 3, 0) + ((972) * mn(p, 0, 0, 3, 1, 3, 2, 2) + (2430) * mn(p, 0, 0, 3, 1, 3, 2, 0)))) + (((-972) * mn(p, 0, 0, 3, 1, 1, 4, 3) + ((-7047) * mn(p, 0, 0, 3, 1, 1, 4, 1) + (-216) * mn(p, 0, 0, 3, 0, 3, 3, 3))) + ((-729) * mn(p, 0, 0, 3, 0, 3, 3, 1) + ((1944) * mn(p, 0, 0, 3, 0, 1, 5, 2) + (-1458) * mn(p, 0, 0, 3, 0, 1, 5, 0)))))));
    assert(q == (((-1) * mn(p, 3, 0, 0, 0, 0, 0, 0) + (3) * mn(p, 1, 0, 2, 0, 0, 0, 0)) + ((1) * mn(p, 0, 2, 1, 0, 0, 0, 0) + (-1) * mn(p, 0, 0, 3, 0, 0, 0, 1))));
}

#[verifier::rlimit(100)]
proof fn acc_prod42(p: Pt)
    ensures
        ((((((((-27) * mn(p, 2, 4, 0, 2, 1, 0, 0) + ((27) * mn(p, 2, 4, 0, 1, 1, 1, 1) + (-27) * mn(p, 2, 4, 0, 0, 1, 2, 0))) + (((-324) * mn(p, 2, 3, 1, 3, 0, 0, 0) + (486) * mn(p, 2, 3, 1, 2, 0, 1, 1)) + ((54) * mn(p, 2, 3, 1, 1, 2, 0, 1) + (-162) * mn(p, 2, 3, 1, 1, 0, 2, 2)))) + (((-324) * mn(p, 2, 3, 1, 1, 0, 2, 0) + ((-108) * mn(p, 2, 3, 1, 0, 2, 1, 0) + (162) * mn(p, 2, 3, 1, 0, 0, 3, 1))) + (((729) * mn(p, 2, 2, 2, 2, 1, 0, 1) + (-486) * mn(p, 2, 2, 2, 1, 1, 1, 2)) + ((-972) * mn(p, 2, 2, 2, 1, 1, 1, 0) + (-81) * mn(p, 2, 2, 2, 0, 3, 0, 0))))) + ((((729) * mn(p, 2, 2, 2, 0, 1, 2, 1) + ((2187) * mn(p, 2, 1, 3, 3, 0, 0, 1) + (-1944) * mn(p, 2, 1, 3, 2, 0, 1, 2))) + (((-5346) * mn(p, 2, 1, 3, 2, 0, 1, 0) + (-162) * mn(p, 2, 1, 3, 1, 2, 0, 2)) + ((-810) * mn(p, 2, 1, 3, 1, 2, 0, 0) + (486) * mn(p, 2, 1, 3, 1, 0, 2, 3)))) + (((4617) * mn(p, 2, 1, 3, 1, 0, 2, 1) + ((729) * mn(p, 2, 1, 3, 0, 2, 1, 1) + (-1215) * mn(p, 2, 1, 3, 0, 0, 3, 2))) + (((486) * mn(p, 2, 1, 3, 0, 0, 3, 0) + (-972) * mn(p, 2, 0, 4, 2, 1, 0, 2)) + ((-2673) * mn(p, 2, 0, 4, 2, 1, 0, 0) + (243) * mn(p, 2, 0, 4, 1, 1, 1, 3)))))) + (((((5589) * mn(p, 2, 0, 4, 1, 1, 1, 1) + ((-1701) * mn(p, 2, 0, 4, 0, 1, 2, 2) + (243) * mn(p, 2, 0, 4, 0, 1, 2, 0))) + (((81) * mn(p, 1, 4, 1, 2, 1, 0, 1) + (-324) * mn(p, 1, 4, 1, 1, 1, 1, 0)) + ((-9) * mn(p, 1, 4, 1, 0, 3, 0, 0) + (81) * mn(p, 1, 4, 1, 0, 1, 2, 1)))) + (((567) * mn(p, 1, 3, 2, 3, 0, 0, 1) + ((-486) * mn(p, 1, 3, 2, 2, 0, 1, 2) + (-1458) * mn(p, 1, 3, 2, 2, 0, 1, 0))) + (((-378) * mn(p, 1, 3, 2, 1, 2, 0, 0) + (1701) * mn(p, 1, 3, 2, 1, 0, 2, 1)) + ((189) * mn(p, 1, 3, 2, 0, 2, 1, 1) + (-81) * mn(p, 1, 3, 2, 0, 0, 3, 2))))) + ((((-810) * mn(p, 1, 3, 2, 0, 0, 3, 0) + ((-324) * mn(p, 1, 2, 3, 2, 1, 0, 2) + (-2349) * mn(p, 1, 2, 3, 2, 1, 0, 0))) + (((3645) * mn(p, 1, 2, 3, 1, 1, 1, 1) + (81) * mn(p, 1, 2, 3, 0, 3, 0, 1)) + ((-405) * mn(p, 1, 2, 3, 0, 1, 2, 2) + (-2025) * mn(p, 1, 2, 3, 0, 1, 2, 0)))) + ((((-1215) * mn(p, 1, 1, 4, 3, 0, 0, 2) + (-3888) * mn(p, 1, 1, 4, 3, 0, 0, 0)) + ((486) * mn(p, 1, 1, 4, 2, 0, 1, 3) + (11178) * mn(p, 1, 1, 4, 2, 0, 1, 1))) + (((1458) * mn(p, 1, 1, 4, 1, 2, 0, 1) + (-5589) * mn(p, 1, 1, 4, 1, 0, 2, 2)) + ((-3888) * mn(p, 1, 1, 4, 1, 0, 2, 0) + (-405) * mn(p, 1, 1, 4, 0, 2, 1, 2))))))) + ((((((-1296) * mn(p, 1, 1, 4, 0, 2, 1, 0) + ((729) * mn(p, 1, 1, 4, 0, 0, 3, 3) + (1458) * mn(p, 1, 1, 4, 0, 0, 3, 1))) + (((243) * mn(p, 1, 0, 5, 2, 1, 0, 3) + (5589) * mn(p, 1, 0, 5, 2, 1, 0, 1)) + ((-4617) * mn(p, 1, 0, 5, 1, 1, 1, 2) + (-7776) * mn(p, 1, 0, 5, 1, 1, 1, 0)))) + (((972) * mn(p, 1, 0, 5, 0, 1, 2, 3) + ((2673) * mn(p, 1, 0, 5, 0, 1, 2, 1) + (1) * mn(p, 0, 6, 0, 0, 3, 0, 0))) + (((27) * mn(p, 0, 5, 1, 3, 0, 0, 1) + (-162) * mn(p, 0, 5, 1, 2, 0, 1, 0)) + ((-18) * mn(p, 0, 5, 1, 1, 2, 0, 0) + (81) * mn(p, 0, 5, 1, 1, 0, 2, 1))))) + ((((9) * mn(p, 0, 5, 1, 0, 2, 1, 1) + ((-27) * mn(p, 0, 5, 1, 0, 0, 3, 2) + (54) * mn(p, 0, 5, 1, 0, 0, 3, 0))) + (((-540) * mn(p, 0, 4, 2, 2, 1, 0, 0) + (540) * mn(p, 0, 4, 2, 1, 1, 1, 1)) + ((18) * mn(p, 0, 4, 2, 0, 3, 0, 1) + (-135) * mn(p, 0, 4, 2, 0, 1, 2, 2)))) + ((((-270) * mn(p, 0, 3, 3, 3, 0, 0, 2) + (-1188) * mn(p, 0, 3, 3, 3, 0, 0, 0)) + ((3402) * mn(p, 0, 3, 3, 2, 0, 1, 1) + (378) * mn(p, 0, 3, 3, 1, 2, 0, 1))) + (((-972) * mn(p, 0, 3, 3, 1, 0, 2, 2) + (-2916) * mn(p, 0, 3, 3, 1, 0, 2, 0)) + ((-162) * mn(p, 0, 3, 3, 0, 2, 1, 2) + (-108) * mn(p, 0, 3, 3, 0, 2, 1, 0)))))) + (((((54) * mn(p, 0, 3, 3, 0, 0, 3, 3) + ((918) * mn(p, 0, 3, 3, 0, 0, 3, 1) + (2187) * mn(p, 0, 2, 4, 2, 1, 0, 1))) + (((-1296) * mn(p, 0, 2, 4, 1, 1, 1, 2) + (-3564) * mn(p, 0, 2, 4, 1, 1, 1, 0)) + ((-27) * mn(p, 0, 2, 4, 0, 3, 0, 2) + (27) * mn(p, 0, 2, 4, 0, 3, 0, 0)))) + (((162) * mn(p, 0, 2, 4, 0, 1, 2, 3) + ((1539) * mn(p, 0, 2, 4, 0, 1, 2, 1) + (243) * mn(p, 0, 1, 5, 3, 0, 0, 3))) + (((1215) * mn(p, 0, 1, 5, 3, 0, 0, 1) + (-3402) * mn(p, 0, 1, 5, 2, 0, 1, 2)) + ((486) * mn(p, 0, 1, 5, 2, 0, 1, 0) + (-324) * mn(p, 0, 1, 5, 1, 2, 0, 2))))) + ((((-162) * mn(p, 0, 1, 5, 1, 2, 0, 0) + ((1215) * mn(p, 0, 1, 5, 1, 0, 2, 3) + (1701) * mn(p, 0, 1, 5, 1, 0, 2, 1))) + (((81) * mn(p, 0, 1, 5, 0, 2, 1, 3) + (405) * mn(p, 0, 1, 5, 0, 2, 1, 1)) + ((-243) * mn(p, 0, 1, 5, 0, 0, 3, 4) + (243) * mn(p, 0, 1, 5, 0, 0, 3, 2)))) + ((((-1458) * mn(p, 0, 1, 5, 0, 0, 3, 0) + (-1701) * mn(p, 0, 0, 6, 2, 1, 0, 2)) + ((243) * mn(p, 0, 0, 6, 2, 1, 0, 0) + (972) * mn(p, 0, 0, 6, 1, 1, 1, 3))) + (((2673) * mn(p, 0, 0, 6, 1, 1, 1, 1) + (-243) * mn(p, 0, 0, 6, 0, 1, 2, 4)) + ((-486) * mn(p, 0, 0, 6, 0, 1, 2, 2) + (-729) * mn(p, 0, 0, 6, 0, 1, 2, 0))))))))) * ((((-1) * mn(p, 0, 0, 0, 3, 0, 0, 0) + (3) * mn(p, 0, 0, 0, 1, 0, 2, 0)) + ((1) * mn(p, 0, 0, 0, 0, 2, 1, 0) + (-1) * mn(p, 0, 0, 0, 0, 0, 3, 1)))) == (((((((((27) * mn(p, 2, 4, 0, 5, 1, 0, 0) + (-27) * mn(p, 2, 4, 0, 4, 1, 1, 1)) + ((-54) * mn(p, 2, 4, 0, 3, 1, 2, 0) + (-27) * mn(p, 2, 4, 0, 2, 3, 1, 0))) + (((108) * mn(p, 2, 4, 0, 2, 1, 3, 1) + (27) * mn(p, 2, 4, 0, 1, 3, 2, 1)) + ((-27) * mn(p, 2, 4, 0, 1, 1, 4, 2) + ((-81) * mn(p, 2, 4, 0, 1, 1, 4, 0) + (-27) * mn(p, 2, 4, 0, 0, 3, 3, 0))))) + ((((27) * mn(p, 2, 4, 0, 0, 1, 5, 1) + (324) * mn(p, 2, 3, 1, 6, 0, 0, 0)) + ((-486) * mn(p, 2, 3, 1, 5, 0, 1, 1) + ((-54) * mn(p, 2, 3, 1, 4, 2, 0, 1) + (162) * mn(p, 2, 3, 1, 4, 0, 2, 2)))) + (((-648) * mn(p, 2, 3, 1, 4, 0, 2, 0) + (-216) * mn(p, 2, 3, 1, 3, 2, 1, 0)) + ((1620) * mn(p, 2, 3, 1, 3, 0, 3, 1) + ((648) * mn(p, 2, 3, 1, 2, 2, 2, 1) + (-972) * mn(p, 2, 3, 1, 2, 0, 4, 2)))))) + (((((-972) * mn(p, 2, 3, 1, 2, 0, 4, 0) + (54) * mn(p, 2, 3, 1, 1, 4, 1, 1)) + ((-216) * mn(p, 2, 3, 1, 1, 2, 3, 2) + ((-648) * mn(p, 2, 3, 1, 1, 2, 3, 0) + (162) * mn(p, 2, 3, 1, 1, 0, 5, 3)))) + (((810) * mn(p, 2, 3, 1, 1, 0, 5, 1) + (-108) * mn(p, 2, 3, 1, 0, 4, 2, 0)) + ((270) * mn(p, 2, 3, 1, 0, 2, 4, 1) + ((-162) * mn(p, 2, 3, 1, 0, 0, 6, 2) + (-729) * mn(p, 2, 2, 2, 5, 1, 0, 1))))) + ((((486) * mn(p, 2, 2, 2, 4, 1, 1, 2) + (972) * mn(p, 2, 2, 2, 4, 1, 1, 0)) + ((81) * mn(p, 2, 2, 2, 3, 3, 0, 0) + ((1458) * mn(p, 2, 2, 2, 3, 1, 2, 1) + (729) * mn(p, 2, 2, 2, 2, 3, 1, 1)))) + (((-2187) * mn(p, 2, 2, 2, 2, 1, 3, 2) + (-2916) * mn(p, 2, 2, 2, 2, 1, 3, 0)) + ((-486) * mn(p, 2, 2, 2, 1, 3, 2, 2) + ((-1215) * mn(p, 2, 2, 2, 1, 3, 2, 0) + (486) * mn(p, 2, 2, 2, 1, 1, 4, 3))))))) + ((((((3159) * mn(p, 2, 2, 2, 1, 1, 4, 1) + (-81) * mn(p, 2, 2, 2, 0, 5, 1, 0)) + ((810) * mn(p, 2, 2, 2, 0, 3, 3, 1) + (-729) * mn(p, 2, 2, 2, 0, 1, 5, 2))) + (((-2187) * mn(p, 2, 1, 3, 6, 0, 0, 1) + (1944) * mn(p, 2, 1, 3, 5, 0, 1, 2)) + ((5346) * mn(p, 2, 1, 3, 5, 0, 1, 0) + ((162) * mn(p, 2, 1, 3, 4, 2, 0, 2) + (810) * mn(p, 2, 1, 3, 4, 2, 0, 0))))) + ((((-486) * mn(p, 2, 1, 3, 4, 0, 2, 3) + (1944) * mn(p, 2, 1, 3, 4, 0, 2, 1)) + ((1458) * mn(p, 2, 1, 3, 3, 2, 1, 1) + ((-6804) * mn(p, 2, 1, 3, 3, 0, 3, 2) + (-16524) * mn(p, 2, 1, 3, 3, 0, 3, 0)))) + (((-2430) * mn(p, 2, 1, 3, 2, 2, 2, 2) + (-7776) * mn(p, 2, 1, 3, 2, 2, 2, 0)) + ((3402) * mn(p, 2, 1, 3, 2, 0, 4, 3) + ((19197) * mn(p, 2, 1, 3, 2, 0, 4, 1) + (-162) * mn(p, 2, 1, 3, 1, 4, 1, 2)))))) + (((((-810) * mn(p, 2, 1, 3, 1, 4, 1, 0) + (648) * mn(p, 2, 1, 3, 1, 2, 3, 3)) + ((7614) * mn(p, 2, 1, 3, 1, 2, 3, 1) + ((-486) * mn(p, 2, 1, 3, 1, 0, 5, 4) + (-8262) * mn(p, 2, 1, 3, 1, 0, 5, 2)))) + (((1458) * mn(p, 2, 1, 3, 1, 0, 5, 0) + (729) * mn(p, 2, 1, 3, 0, 4, 2, 1)) + ((-1944) * mn(p, 2, 1, 3, 0, 2, 4, 2) + ((486) * mn(p, 2, 1, 3, 0, 2, 4, 0) + (1215) * mn(p, 2, 1, 3, 0, 0, 6, 3))))) + ((((-486) * mn(p, 2, 1, 3, 0, 0, 6, 1) + (972) * mn(p, 2, 0, 4, 5, 1, 0, 2)) + ((2673) * mn(p, 2, 0, 4, 5, 1, 0, 0) + ((-243) * mn(p, 2, 0, 4, 4, 1, 1, 3) + (-5589) * mn(p, 2, 0, 4, 4, 1, 1, 1)))) + (((-1215) * mn(p, 2, 0, 4, 3, 1, 2, 2) + (-8262) * mn(p, 2, 0, 4, 3, 1, 2, 0)) + ((-972) * mn(p, 2, 0, 4, 2, 3, 1, 2) + ((-2673) * mn(p, 2, 0, 4, 2, 3, 1, 0) + (1701) * mn(p, 2, 0, 4, 2, 1, 3, 3)))))))) + (((((((19440) * mn(p, 2, 0, 4, 2, 1, 3, 1) + (243) * mn(p, 2, 0, 4, 1, 3, 2, 3)) + ((5589) * mn(p, 2, 0, 4, 1, 3, 2, 1) + (-243) * mn(p, 2, 0, 4, 1, 1, 4, 4))) + (((-10692) * mn(p, 2, 0, 4, 1, 1, 4, 2) + (729) * mn(p, 2, 0, 4, 1, 1, 4, 0)) + ((-1701) * mn(p, 2, 0, 4, 0, 3, 3, 2) + ((243) * mn(p, 2, 0, 4, 0, 3, 3, 0) + (1701) * mn(p, 2, 0, 4, 0, 1, 5, 3))))) + ((((-243) * mn(p, 2, 0, 4, 0, 1, 5, 1) + (-81) * mn(p, 1, 4, 1, 5, 1, 0, 1)) + ((324) * mn(p, 1, 4, 1, 4, 1, 1, 0) + ((9) * mn(p, 1, 4, 1, 3, 3, 0, 0) + (162) * mn(p, 1, 4, 1, 3, 1, 2, 1)))) + (((81) * mn(p, 1, 4, 1, 2, 3, 1, 1) + (-81) * mn(p, 1, 4, 1, 2, 1, 3, 2)) + ((-972) * mn(p, 1, 4, 1, 2, 1, 3, 0) + ((-351) * mn(p, 1, 4, 1, 1, 3, 2, 0) + (567) * mn(p, 1, 4, 1, 1, 1, 4, 1)))))) + (((((-9) * mn(p, 1, 4, 1, 0, 5, 1, 0) + (90) * mn(p, 1, 4, 1, 0, 3, 3, 1)) + ((-81) * mn(p, 1, 4, 1, 0, 1, 5, 2) + ((-567) * mn(p, 1, 3, 2, 6, 0, 0, 1) + (486) * mn(p, 1, 3, 2, 5, 0, 1, 2)))) + (((1458) * mn(p, 1, 3, 2, 5, 0, 1, 0) + (378) * mn(p, 1, 3, 2, 4, 2, 0, 0)) + ((378) * mn(p, 1, 3, 2, 3, 2, 1, 1) + ((-1944) * mn(p, 1, 3, 2, 3, 0, 3, 2) + (-3564) * mn(p, 1, 3, 2, 3, 0, 3, 0))))) + ((((-486) * mn(p, 1, 3, 2, 2, 2, 2, 2) + (-2592) * mn(p, 1, 3, 2, 2, 2, 2, 0)) + ((486) * mn(p, 1, 3, 2, 2, 0, 4, 3) + ((6561) * mn(p, 1, 3, 2, 2, 0, 4, 1) + (-378) * mn(p, 1, 3, 2, 1, 4, 1, 0)))) + (((2646) * mn(p, 1, 3, 2, 1, 2, 3, 1) + (-1944) * mn(p, 1, 3, 2, 1, 0, 5, 2)) + ((-2430) * mn(p, 1, 3, 2, 1, 0, 5, 0) + ((189) * mn(p, 1, 3, 2, 0, 4, 2, 1) + (-270) * mn(p, 1, 3, 2, 0, 2, 4, 2))))))) + ((((((-810) * mn(p, 1, 3, 2, 0, 2, 4, 0) + (81) * mn(p, 1, 3, 2, 0, 0, 6, 3)) + ((810) * mn(p, 1, 3, 2, 0, 0, 6, 1) + (324) * mn(p, 1, 2, 3, 5, 1, 0, 2))) + (((2349) * mn(p, 1, 2, 3, 5, 1, 0, 0) + (-3645) * mn(p, 1, 2, 3, 4, 1, 1, 1)) + ((-81) * mn(p, 1, 2, 3, 3, 3, 0, 1) + ((-567) * mn(p, 1, 2, 3, 3, 1, 2, 2) + (-5022) * mn(p, 1, 2, 3, 3, 1, 2, 0))))) + ((((-324) * mn(p, 1, 2, 3, 2, 3, 1, 2) + (-2349) * mn(p, 1, 2, 3, 2, 3, 1, 0)) + ((324) * mn(p, 1, 2, 3, 2, 1, 3, 3) + ((13284) * mn(p, 1, 2, 3, 2, 1, 3, 1) + (3888) * mn(p, 1, 2, 3, 1, 3, 2, 1)))) + (((-4860) * mn(p, 1, 2, 3, 1, 1, 4, 2) + (-6075) * mn(p, 1, 2, 3, 1, 1, 4, 0)) + ((81) * mn(p, 1, 2, 3, 0, 5, 1, 1) + ((-486) * mn(p, 1, 2, 3, 0, 3, 3, 2) + (-2025) * mn(p, 1, 2, 3, 0, 3, 3, 0)))))) + (((((405) * mn(p, 1, 2, 3, 0, 1, 5, 3) + (2025) * mn(p, 1, 2, 3, 0, 1, 5, 1)) + ((1215) * mn(p, 1, 1, 4, 6, 0, 0, 2) + ((3888) * mn(p, 1, 1, 4, 6, 0, 0, 0) + (-486) * mn(p, 1, 1, 4, 5, 0, 1, 3)))) + (((-11178) * mn(p, 1, 1, 4, 5, 0, 1, 1) + (-1458) * mn(p, 1, 1, 4, 4, 2, 0, 1)) + ((1944) * mn(p, 1, 1, 4, 4, 0, 2, 2) + ((-7776) * mn(p, 1, 1, 4, 4, 0, 2, 0) + (-810) * mn(p, 1, 1, 4, 3, 2, 1, 2))))) + ((((-2592) * mn(p, 1, 1, 4, 3, 2, 1, 0) + (1944) * mn(p, 1, 1, 4, 3, 0, 3, 3)) + ((35964) * mn(p, 1, 1, 4, 3, 0, 3, 1) + ((486) * mn(p, 1, 1, 4, 2, 2, 2, 3) + (15552) * mn(p, 1, 1, 4, 2, 2, 2, 1)))) + (((-486) * mn(p, 1, 1, 4, 2, 0, 4, 4) + (-27945) * mn(p, 1, 1, 4, 2, 0, 4, 2)) + ((-11664) * mn(p, 1, 1, 4, 2, 0, 4, 0) + ((1458) * mn(p, 1, 1, 4, 1, 4, 1, 1) + (-8262) * mn(p, 1, 1, 4, 1, 2, 3, 2))))))))) + ((((((((-7776) * mn(p, 1, 1, 4, 1, 2, 3, 0) + (7776) * mn(p, 1, 1, 4, 1, 0, 5, 3)) + ((8262) * mn(p, 1, 1, 4, 1, 0, 5, 1) + (-405) * mn(p, 1, 1, 4, 0, 4, 2, 2))) + (((-1296) * mn(p, 1, 1, 4, 0, 4, 2, 0) + (1134) * mn(p, 1, 1, 4, 0, 2, 4, 3)) + ((2754) * mn(p, 1, 1, 4, 0, 2, 4, 1) + ((-729) * mn(p, 1, 1, 4, 0, 0, 6, 4) + (-1458) * mn(p, 1, 1, 4, 0, 0, 6, 2))))) + ((((-243) * mn(p, 1, 0, 5, 5, 1, 0, 3) + (-5589) * mn(p, 1, 0, 5, 5, 1, 0, 1)) + ((4617) * mn(p, 1, 0, 5, 4, 1, 1, 2) + ((7776) * mn(p, 1, 0, 5, 4, 1, 1, 0) + (-243) * mn(p, 1, 0, 5, 3, 1, 2, 3)))) + (((14094) * mn(p, 1, 0, 5, 3, 1, 2, 1) + (243) * mn(p, 1, 0, 5, 2, 3, 1, 3)) + ((5589) * mn(p, 1, 0, 5, 2, 3, 1, 1) + ((-243) * mn(p, 1, 0, 5, 2, 1, 3, 4) + (-19440) * mn(p, 1, 0, 5, 2, 1, 3, 2)))))) + (((((-23328) * mn(p, 1, 0, 5, 2, 1, 3, 0) + (-4617) * mn(p, 1, 0, 5, 1, 3, 2, 2)) + ((-7776) * mn(p, 1, 0, 5, 1, 3, 2, 0) + ((7533) * mn(p, 1, 0, 5, 1, 1, 4, 3) + (15795) * mn(p, 1, 0, 5, 1, 1, 4, 1)))) + (((972) * mn(p, 1, 0, 5, 0, 3, 3, 3) + (2673) * mn(p, 1, 0, 5, 0, 3, 3, 1)) + ((-972) * mn(p, 1, 0, 5, 0, 1, 5, 4) + ((-2673) * mn(p, 1, 0, 5, 0, 1, 5, 2) + (-1) * mn(p, 0, 6, 0, 3, 3, 0, 0))))) + ((((3) * mn(p, 0, 6, 0, 1, 3, 2, 0) + (1) * mn(p, 0, 6, 0, 0, 5, 1, 0)) + ((-1) * mn(p, 0, 6, 0, 0, 3, 3, 1) + ((-27) * mn(p, 0, 5, 1, 6, 0, 0, 1) + (162) * mn(p, 0, 5, 1, 5, 0, 1, 0)))) + (((18) * mn(p, 0, 5, 1, 4, 2, 0, 0) + (18) * mn(p, 0, 5, 1, 3, 2, 1, 1)) + ((-540) * mn(p, 0, 5, 1, 3, 0, 3, 0) + ((-216) * mn(p, 0, 5, 1, 2, 2, 2, 0) + (405) * mn(p, 0, 5, 1, 2, 0, 4, 1))))))) + ((((((-18) * mn(p, 0, 5, 1, 1, 4, 1, 0) + (126) * mn(p, 0, 5, 1, 1, 2, 3, 1)) + ((-162) * mn(p, 0, 5, 1, 1, 0, 5, 2) + (162) * mn(p, 0, 5, 1, 1, 0, 5, 0))) + (((9) * mn(p, 0, 5, 1, 0, 4, 2, 1) + (-36) * mn(p, 0, 5, 1, 0, 2, 4, 2)) + ((54) * mn(p, 0, 5, 1, 0, 2, 4, 0) + ((27) * mn(p, 0, 5, 1, 0, 0, 6, 3) + (-54) * mn(p, 0, 5, 1, 0, 0, 6, 1))))) + ((((540) * mn(p, 0, 4, 2, 5, 1, 0, 0) + (-540) * mn(p, 0, 4, 2, 4, 1, 1, 1)) + ((-18) * mn(p, 0, 4, 2, 3, 3, 0, 1) + ((135) * mn(p, 0, 4, 2, 3, 1, 2, 2) + (-1620) * mn(p, 0, 4, 2, 3, 1, 2, 0)))) + (((-540) * mn(p, 0, 4, 2, 2, 3, 1, 0) + (2160) * mn(p, 0, 4, 2, 2, 1, 3, 1)) + ((594) * mn(p, 0, 4, 2, 1, 3, 2, 1) + ((-945) * mn(p, 0, 4, 2, 1, 1, 4, 2) + (18) * mn(p, 0, 4, 2, 0, 5, 1, 1)))))) + (((((-153) * mn(p, 0, 4, 2, 0, 3, 3, 2) + (135) * mn(p, 0, 4, 2, 0, 1, 5, 3)) + ((270) * mn(p, 0, 3, 3, 6, 0, 0, 2) + ((1188) * mn(p, 0, 3, 3, 6, 0, 0, 0) + (-3402) * mn(p, 0, 3, 3, 5, 0, 1, 1)))) + (((-378) * mn(p, 0, 3, 3, 4, 2, 0, 1) + (162) * mn(p, 0, 3, 3, 4, 0, 2, 2)) + ((-648) * mn(p, 0, 3, 3, 4, 0, 2, 0) + ((-108) * mn(p, 0, 3, 3, 3, 2, 1, 2) + (-1080) * mn(p, 0, 3, 3, 3, 2, 1, 0))))) + ((((216) * mn(p, 0, 3, 3, 3, 0, 3, 3) + (10476) * mn(p, 0, 3, 3, 3, 0, 3, 1)) + ((4536) * mn(p, 0, 3, 3, 2, 2, 2, 1) + ((-6318) * mn(p, 0, 3, 3, 2, 0, 4, 2) + (-8748) * mn(p, 0, 3, 3, 2, 0, 4, 0)))) + (((378) * mn(p, 0, 3, 3, 1, 4, 1, 1) + (-1836) * mn(p, 0, 3, 3, 1, 2, 3, 2)) + ((-3240) * mn(p, 0, 3, 3, 1, 2, 3, 0) + ((1134) * mn(p, 0, 3, 3, 1, 0, 5, 3) + (5670) * mn(p, 0, 3, 3, 1, 0, 5, 1)))))))) + (((((((-162) * mn(p, 0, 3, 3, 0, 4, 2, 2) + (-108) * mn(p, 0, 3, 3, 0, 4, 2, 0)) + ((216) * mn(p, 0, 3, 3, 0, 2, 4, 3) + (1026) * mn(p, 0, 3, 3, 0, 2, 4, 1))) + (((-54) * mn(p, 0, 3, 3, 0, 0, 6, 4) + (-918) * mn(p, 0, 3, 3, 0, 0, 6, 2)) + ((-2187) * mn(p, 0, 2, 4, 5, 1, 0, 1) + ((1296) * mn(p, 0, 2, 4, 4, 1, 1, 2) + (3564) * mn(p, 0, 2, 4, 4, 1, 1, 0))))) + ((((27) * mn(p, 0, 2, 4, 3, 3, 0, 2) + (-27) * mn(p, 0, 2, 4, 3, 3, 0, 0)) + ((-162) * mn(p, 0, 2, 4, 3, 1, 2, 3) + ((5022) * mn(p, 0, 2, 4, 3, 1, 2, 1) + (2187) * mn(p, 0, 2, 4, 2, 3, 1, 1)))) + (((-6075) * mn(p, 0, 2, 4, 2, 1, 3, 2) + (-10692) * mn(p, 0, 2, 4, 2, 1, 3, 0)) + ((-1377) * mn(p, 0, 2, 4, 1, 3, 2, 2) + ((-3483) * mn(p, 0, 2, 4, 1, 3, 2, 0) + (1782) * mn(p, 0, 2, 4, 1, 1, 4, 3)))))) + (((((8181) * mn(p, 0, 2, 4, 1, 1, 4, 1) + (-27) * mn(p, 0, 2, 4, 0, 5, 1, 2)) + ((27) * mn(p, 0, 2, 4, 0, 5, 1, 0) + ((189) * mn(p, 0, 2, 4, 0, 3, 3, 3) + (1512) * mn(p, 0, 2, 4, 0, 3, 3, 1)))) + (((-162) * mn(p, 0, 2, 4, 0, 1, 5, 4) + (-1539) * mn(p, 0, 2, 4, 0, 1, 5, 2)) + ((-243) * mn(p, 0, 1, 5, 6, 0, 0, 3) + ((-1215) * mn(p, 0, 1, 5, 6, 0, 0, 1) + (3402) * mn(p, 0, 1, 5, 5, 0, 1, 2))))) + ((((-486) * mn(p, 0, 1, 5, 5, 0, 1, 0) + (324) * mn(p, 0, 1, 5, 4, 2, 0, 2)) + ((162) * mn(p, 0, 1, 5, 4, 2, 0, 0) + ((-486) * mn(p, 0, 1, 5, 4, 0, 2, 3) + (1944) * mn(p, 0, 1, 5, 4, 0, 2, 1)))) + (((162) * mn(p, 0, 1, 5, 3, 2, 1, 3) + (810) * mn(p, 0, 1, 5, 3, 2, 1, 1)) + ((-11664) * mn(p, 0, 1, 5, 3, 0, 3, 2) + ((2916) * mn(p, 0, 1, 5, 3, 0, 3, 0) + (-4374) * mn(p, 0, 1, 5, 2, 2, 2, 2))))))) + ((((((7047) * mn(p, 0, 1, 5, 2, 0, 4, 3) + (4617) * mn(p, 0, 1, 5, 2, 0, 4, 1)) + ((-324) * mn(p, 0, 1, 5, 1, 4, 1, 2) + (-162) * mn(p, 0, 1, 5, 1, 4, 1, 0))) + (((1782) * mn(p, 0, 1, 5, 1, 2, 3, 3) + (3078) * mn(p, 0, 1, 5, 1, 2, 3, 1)) + ((-1944) * mn(p, 0, 1, 5, 1, 0, 5, 4) + ((-972) * mn(p, 0, 1, 5, 1, 0, 5, 2) + (-4374) * mn(p, 0, 1, 5, 1, 0, 5, 0))))) + ((((81) * mn(p, 0, 1, 5, 0, 4, 2, 3) + (405) * mn(p, 0, 1, 5, 0, 4, 2, 1)) + ((-324) * mn(p, 0, 1, 5, 0, 2, 4, 4) + ((-162) * mn(p, 0, 1, 5, 0, 2, 4, 2) + (-1458) * mn(p, 0, 1, 5, 0, 2, 4, 0)))) + (((243) * mn(p, 0, 1, 5, 0, 0, 6, 5) + (-243) * mn(p, 0, 1, 5, 0, 0, 6, 3)) + ((1458) * mn(p, 0, 1, 5, 0, 0, 6, 1) + ((1701) * mn(p, 0, 0, 6, 5, 1, 0, 2) + (-243) * mn(p, 0, 0, 6, 5, 1, 0, 0)))))) + (((((-972) * mn(p, 0, 0, 6, 4, 1, 1, 3) + (-2673) * mn(p, 0, 0, 6, 4, 1, 1, 1)) + ((243) * mn(p, 0, 0, 6, 3, 1, 2, 4) + ((-4617) * mn(p, 0, 0, 6, 3, 1, 2, 2) + (1458) * mn(p, 0, 0, 6, 3, 1, 2, 0)))) + (((-1701) * mn(p, 0, 0, 6, 2, 3, 1, 2) + (243) * mn(p, 0, 0, 6, 2, 3, 1, 0)) + ((4617) * mn(p, 0, 0, 6, 2, 1, 3, 3) + ((7776) * mn(p, 0, 0, 6, 2, 1, 3, 1) + (972) * mn(p, 0, 0, 6, 1, 3, 2, 3))))) + ((((2673) * mn(p, 0, 0, 6, 1, 3, 2, 1) + (-1701) * mn(p, 0, 0, 6, 1, 1, 4, 4)) + ((-4131) * mn(p, 0, 0, 6, 1, 1, 4, 2) + ((-2187) * mn(p, 0, 0, 6, 1, 1, 4, 0) + (-243) * mn(p, 0, 0, 6, 0, 3, 3, 4)))) + (((-486) * mn(p, 0, 0, 6, 0, 3, 3, 2) + (-729) * mn(p, 0, 0, 6, 0, 3, 3, 0)) + ((243) * mn(p, 0, 0, 6, 0, 1, 5, 5) + ((486) * mn(p, 0, 0, 6, 0, 1, 5, 3) + (729) * mn(p, 0, 0, 6, 0, 1, 5, 1)))))))))),
{
    let c0 = ((((((-27) * mn(p, 2, 4, 0, 2, 1, 0, 0) + (27) * mn(p, 2, 4, 0, 1, 1, 1, 1)) + ((-27) * mn(p, 2, 4, 0, 0, 1, 2, 0) + (-324) * mn(p, 2, 3, 1, 3, 0, 0, 0))) + (((486) * mn(p, 2, 3, 1, 2, 0, 1, 1) + (54) * mn(p, 2, 3, 1, 1, 2, 0, 1)) + ((-162) * mn(p, 2, 3, 1, 1, 0, 2, 2) + (-324) * mn(p, 2, 3, 1, 1, 0, 2, 0)))) + ((((-108) * mn(p, 2, 3, 1, 0, 2, 1, 0) + (162) * mn(p, 2, 3, 1, 0, 0, 3, 1)) + ((729) * mn(p, 2, 2, 2, 2, 1, 0, 1) + (-486) * mn(p, 2, 2, 2, 1, 1, 1, 2))) + (((-972) * mn(p, 2, 2, 2, 1, 1, 1, 0) + (-81) * mn(p, 2, 2, 2, 0, 3, 0, 0)) + ((729) * mn(p, 2, 2, 2, 0, 1, 2, 1) + (2187) * mn(p, 2, 1, 3, 3, 0, 0, 1))))) + (((((-1944) * mn(p, 2, 1, 3, 2, 0, 1, 2) + (-5346) * mn(p, 2, 1, 3, 2, 0, 1, 0)) + ((-162) * mn(p, 2, 1, 3, 1, 2, 0, 2) + (-810) * mn(p, 2, 1, 3, 1, 2, 0, 0))) + (((486) * mn(p, 2, 1, 3, 1, 0, 2, 3) + (4617) * mn(p, 2, 1, 3, 1, 0, 2, 1)) + ((729) * mn(p, 2, 1, 3, 0, 2, 1, 1) + (-1215) * mn(p, 2, 1, 3, 0, 0, 3, 2)))) + ((((486) * mn(p, 2, 1, 3, 0, 0, 3, 0) + (-972) * mn(p, 2, 0, 4, 2, 1, 0, 2)) + ((-2673) * mn(p, 2, 0, 4, 2, 1, 0, 0) + (243) * mn(p, 2, 0, 4, 1, 1, 1, 3))) + (((5589) * mn(p, 2, 0, 4, 1, 1, 1, 1) + (-1701) * mn(p, 2, 0, 4, 0, 1, 2, 2)) + ((243) * mn(p, 2, 0, 4, 0, 1, 2, 0) + (81) * mn(p, 1, 4, 1, 2, 1, 0, 1))))));
    let c1 = ((((((-324) * mn(p, 1, 4, 1, 1, 1, 1, 0) + (-9) * mn(p, 1, 4, 1, 0, 3, 0, 0)) + ((81) * mn(p, 1, 4, 1, 0, 1, 2, 1) + (567) * mn(p, 1, 3, 2, 3, 0, 0, 1))) + (((-486) * mn(p, 1, 3, 2, 2, 0, 1, 2) + (-1458) * mn(p, 1, 3, 2, 2, 0, 1, 0)) + ((-378) * mn(p, 1, 3, 2, 1, 2, 0, 0) + (1701) * mn(p, 1, 3, 2, 1, 0, 2, 1)))) + ((((189) * mn(p, 1, 3, 2, 0, 2, 1, 1) + (-81) * mn(p, 1, 3, 2, 0, 0, 3, 2)) + ((-810) * mn(p, 1, 3, 2, 0, 0, 3, 0) + (-324) * mn(p, 1, 2, 3, 2, 1, 0, 2))) + (((-2349) * mn(p, 1, 2, 3, 2, 1, 0, 0) + (3645) * mn(p, 1, 2, 3, 1, 1, 1, 1)) + ((81) * mn(p, 1, 2, 3, 0, 3, 0, 1) + (-405) * mn(p, 1, 2, 3, 0, 1, 2, 2))))) + (((((-2025) * mn(p, 1, 2, 3, 0, 1, 2, 0) + (-1215) * mn(p, 1, 1, 4, 3, 0, 0, 2)) + ((-3888) * mn(p, 1, 1, 4, 3, 0, 0, 0) + (486) * mn(p, 1, 1, 4, 2, 0, 1, 3))) + (((11178) * mn(p, 1, 1, 4, 2, 0, 1, 1) + (1458) * mn(p, 1, 1, 4, 1, 2, 0, 1)) + ((-5589) * mn(p, 1, 1, 4, 1, 0, 2, 2) + (-3888) * mn(p, 1, 1, 4, 1, 0, 2, 0)))) + ((((-405) * mn(p, 1, 1, 4, 0, 2, 1, 2) + (-1296) * mn(p, 1, 1, 4, 0, 2, 1, 0)) + ((729) * mn(p, 1, 1, 4, 0, 0, 3, 3) + (1458) * mn(p, 1, 1, 4, 0, 0, 3, 1))) + (((243) * mn(p, 1, 0, 5, 2, 1, 0, 3) + (5589) * mn(p, 1, 0, 5, 2, 1, 0, 1)) + ((-4617) * mn(p, 1, 0, 5, 1, 1, 1, 2) + (-7776) * mn(p, 1, 0, 5, 1, 1, 1, 0))))));
    let c2 = ((((((972) * mn(p, 1, 0, 5, 0, 1, 2, 3) + (2673) * mn(p, 1, 0, 5, 0, 1, 2, 1)) + ((1) * mn(p, 0, 6, 0, 0, 3, 0, 0) + (27) * mn(p, 0, 5, 1, 3, 0, 0, 1))) + (((-162) * mn(p, 0, 5, 1, 2, 0, 1, 0) + (-18) * mn(p, 0, 5, 1, 1, 2, 0, 0)) + ((81) * mn(p, 0, 5, 1, 1, 0, 2, 1) + (9) * mn(p, 0, 5, 1, 0, 2, 1, 1)))) + ((((-27) * mn(p, 0, 5, 1, 0, 0, 3, 2) + (54) * mn(p, 0, 5, 1, 0, 0, 3, 0)) + ((-540) * mn(p, 0, 4, 2, 2, 1, 0, 0) + (540) * mn(p, 0, 4, 2, 1, 1, 1, 1))) + (((18) * mn(p, 0, 4, 2, 0, 3, 0, 1) + (-135) * mn(p, 0, 4, 2, 0, 1, 2, 2)) + ((-270) * mn(p, 0, 3, 3, 3, 0, 0, 2) + (-1188) * mn(p, 0, 3, 3, 3, 0, 0, 0))))) + (((((3402) * mn(p, 0, 3, 3, 2, 0, 1, 1) + (378) * mn(p, 0, 3, 3, 1, 2, 0, 1)) + ((-972) * mn(p, 0, 3, 3, 1, 0, 2, 2) + (-2916) * mn(p, 0, 3, 3, 1, 0, 2, 0))) + (((-162) * mn(p, 0, 3, 3, 0, 2, 1, 2) + (-108) * mn(p, 0, 3, 3, 0, 2, 1, 0)) + ((54) * mn(p, 0, 3, 3, 0, 0, 3, 3) + (918) * mn(p, 0, 3, 3, 0, 0, 3, 1)))) + ((((2187) * mn(p, 0, 2, 4, 2, 1, 0, 1) + (-1296) * mn(p, 0, 2, 4, 1, 1, 1, 2)) + ((-3564) * mn(p, 0, 2, 4, 1, 1, 1, 0) + (-27) * mn(p, 0, 2, 4, 0, 3, 0, 2))) + (((27) * mn(p, 0, 2, 4, 0, 3, 0, 0) + (162) * mn(p, 0, 2, 4, 0, 1, 2, 3)) + ((1539) * mn(p, 0, 2, 4, 0, 1, 2, 1) + (243) * mn(p, 0, 1, 5, 3, 0, 0, 3))))));
    let c3 = (((((1215) * mn(p, 0, 1, 5, 3, 0, 0, 1) + (-3402) * mn(p, 0, 1, 5, 2, 0, 1, 2)) + ((486) * mn(p, 0, 1, 5, 2, 0, 1, 0) + (-324) * mn(p, 0, 1, 5, 1, 2, 0, 2))) + (((-162) * mn(p, 0, 1, 5, 1, 2, 0, 0) + (1215) * mn(p, 0, 1, 5, 1, 0, 2, 3)) + ((1701) * mn(p, 0, 1, 5, 1, 0, 2, 1) + ((81) * mn(p, 0, 1, 5, 0, 2, 1, 3) + (405) * mn(p, 0, 1, 5, 0, 2, 1, 1))))) + ((((-243) * mn(p, 0, 1, 5, 0, 0, 3, 4) + (243) * mn(p, 0, 1, 5, 0, 0, 3, 2)) + ((-1458) * mn(p, 0, 1, 5, 0, 0, 3, 0) + ((-1701) * mn(p, 0, 0, 6, 2, 1, 0, 2) + (243) * mn(p, 0, 0, 6, 2, 1, 0, 0)))) + (((972) * mn(p, 0, 0, 6, 1, 1, 1, 3) + (2673) * mn(p, 0, 0, 6, 1, 1, 1, 1)) + ((-243) * mn(p, 0, 0, 6, 0, 1, 2, 4) + ((-486) * mn(p, 0, 0, 6, 0, 1, 2, 2) + (-729) * mn(p, 0, 0, 6, 0, 1, 2, 0))))));
    let cc0 = c0;
    let cc1 = cc0 + c1;
    let cc2 = cc1 + c2;
    let cc3 = cc2 + c3;
    assert(cc3 == (((((((-27) * mn(p, 2, 4, 0, 2, 1, 0, 0) + ((27) * mn(p, 2, 4, 0, 1, 1, 1, 1) + (-27) * mn(p, 2, 4, 0, 0, 1, 2, 0))) + (((-324) * mn(p, 2, 3, 1, 3, 0, 0, 0) + (486) * mn(p, 2, 3, 1, 2, 0, 1, 1)) + ((54) * mn(p, 2, 3, 1, 1, 2, 0, 1) + (-162) * mn(p, 2, 3, 1, 1, 0, 2, 2)))) + (((-324) * mn(p, 2, 3, 1, 1, 0, 2, 0) + ((-108) * mn(p, 2, 3, 1, 0, 2, 1, 0) + (162) * mn(p, 2, 3, 1, 0, 0, 3, 1))) + (((729) * mn(p, 2, 2, 2, 2, 1, 0, 1) + (-486) * mn(p, 2, 2, 2, 1, 1, 1, 2)) + ((-972) * mn(p, 2, 2, 2, 1, 1, 1, 0) + (-81) * mn(p, 2, 2, 2, 0, 3, 0, 0))))) + ((((729) * mn(p, 2, 2, 2, 0, 1, 2, 1) + ((2187) * mn(p, 2, 1, 3, 3, 0, 0, 1) + (-1944) * mn(p, 2, 1, 3, 2, 0, 1, 2))) + (((-5346) * mn(p, 2, 1, 3, 2, 0, 1, 0) + (-162) * mn(p, 2, 1, 3, 1, 2, 0, 2)) + ((-810) * mn(p, 2, 1, 3, 1, 2, 0, 0) + (486) * mn(p, 2, 1, 3, 1, 0, 2, 3)))) + (((4617) * mn(p, 2, 1, 3, 1, 0, 2, 1) + ((729) * mn(p, 2, 1, 3, 0, 2, 1, 1) + (-1215) * mn(p, 2, 1, 3, 0, 0, 3, 2))) + (((486) * mn(p, 2, 1, 3, 0, 0, 3, 0) + (-972) * mn(p, 2, 0, 4, 2, 1, 0, 2)) + ((-2673) * mn(p, 2, 0, 4, 2, 1, 0, 0) + (243) * mn(p, 2, 0, 4, 1, 1, 1, 3)))))) + (((((5589) * mn(p, 2, 0, 4, 1, 1, 1, 1) + ((-1701) * mn(p, 2, 0, 4, 0, 1, 2, 2) + (243) * mn(p, 2, 0, 4, 0, 1, 2, 0))) + (((81) * mn(p, 1, 4, 1, 2, 1, 0, 1) + (-324) * mn(p, 1, 4, 1, 1, 1, 1, 0)) + ((-9) * mn(p, 1, 4, 1, 0, 3, 0, 0) + (81) * mn(p, 1, 4, 1, 0, 1, 2, 1)))) + (((567) * mn(p, 1, 3, 2, 3, 0, 0, 1) + ((-486) * mn(p, 1, 3, 2, 2, 0, 1, 2) + (-1458) * mn(p, 1, 3, 2, 2, 0, 1, 0))) + (((-378) * mn(p, 1, 3, 2, 1, 2, 0, 0) + (1701) * mn(p, 1, 3, 2, 1, 0, 2, 1)) + ((189) * mn(p, 1, 3, 2, 0, 2, 1, 1) + (-81) * mn(p, 1, 3, 2, 0, 0, 3, 2))))) + ((((-810) * mn(p, 1, 3, 2, 0, 0, 3, 0) + ((-324) * mn(p, 1, 2, 3, 2, 1, 0, 2) + (-2349) * mn(p, 1, 2, 3, 2, 1, 0, 0))) + (((3645) * mn(p, 1, 2, 3, 1, 1, 1, 1) + (81) * mn(p, 1, 2, 3, 0, 3, 0, 1)) + ((-405) * mn(p, 1, 2, 3, 0, 1, 2, 2) + (-2025) * mn(p, 1, 2, 3, 0, 1, 2, 0)))) + ((((-1215) * mn(p, 1, 1, 4, 3, 0, 0, 2) + (-3888) * mn(p, 1, 1, 4, 3, 0, 0, 0)) + ((486) * mn(p, 1, 1, 4, 2, 0, 1, 3) + (11178) * mn(p, 1, 1, 4, 2, 0, 1, 1))) + (((1458) * mn(p, 1, 1, 4, 1, 2, 0, 1) + (-5589) * mn(p, 1, 1, 4, 1, 0, 2, 2)) + ((-3888) * mn(p, 1, 1, 4, 1, 0, 2, 0) + (-405) * mn(p, 1, 1, 4, 0, 2, 1, 2))))))) + ((((((-1296) * mn(p, 1, 1, 4, 0, 2, 1, 0) + ((729) * mn(p, 1, 1, 4, 0, 0, 3, 3) + (1458) * mn(p, 1, 1, 4, 0, 0, 3, 1))) + (((243) * mn(p, 1, 0, 5, 2, 1, 0, 3) + (5589) * mn(p, 1, 0, 5, 2, 1, 0, 1)) + ((-4617) * mn(p, 1, 0, 5, 1, 1, 1, 2) + (-7776) * mn(p, 1, 0, 5, 1, 1, 1, 0)))) + (((972) * mn(p, 1, 0, 5, 0, 1, 2, 3) + ((2673) * mn(p, 1, 0, 5, 0, 1, 2, 1) + (1) * mn(p, 0, 6, 0, 0, 3, 0, 0))) + (((27) * mn(p, 0, 5, 1, 3, 0, 0, 1) + (-162) * mn(p, 0, 5, 1, 2, 0, 1, 0)) + ((-18) * mn(p, 0, 5, 1, 1, 2, 0, 0) + (81) * mn(p, 0, 5, 1, 1, 0, 2, 1))))) + ((((9) * mn(p, 0, 5, 1, 0, 2, 1, 1) + ((-27) * mn(p, 0, 5, 1, 0, 0, 3, 2) + (54) * mn(p, 0, 5, 1, 0, 0, 3, 0))) + (((-540) * mn(p, 0, 4, 2, 2, 1, 0, 0) + (540) * mn(p, 0, 4, 2, 1, 1, 1, 1)) + ((18) * mn(p, 0, 4, 2, 0, 3, 0, 1) + (-135) * mn(p, 0, 4, 2, 0, 1, 2, 2)))) + ((((-270) * mn(p, 0, 3, 3, 3, 0, 0, 2) + (-1188) * mn(p, 0, 3, 3, 3, 0, 0, 0)) + ((3402) * mn(p, 0, 3, 3, 2, 0, 1, 1) + (378) * mn(p, 0, 3, 3, 1, 2, 0, 1))) + (((-972) * mn(p, 0, 3, 3, 1, 0, 2, 2) + (-2916) * mn(p, 0, 3, 3, 1, 0, 2, 0)) + ((-162) * mn(p, 0, 3, 3, 0, 2, 1, 2) + (-108) * mn(p, 0, 3, 3, 0, 2, 1, 0)))))) + (((((54) * mn(p, 0, 3, 3, 0, 0, 3, 3) + ((918) * mn(p, 0, 3, 3, 0, 0, 3, 1) + (2187) * mn(p, 0, 2, 4, 2, 1, 0, 1))) + (((-1296) * mn(p, 0, 2, 4, 1, 1, 1, 2) + (-3564) * mn(p, 0, 2, 4, 1, 1, 1, 0)) + ((-27) * mn(p, 0, 2, 4, 0, 3, 0, 2) + (27) * mn(p, 0, 2, 4, 0, 3, 0, 0)))) + (((162) * mn(p, 0, 2, 4, 0, 1, 2, 3) + ((1539) * mn(p, 0, 2, 4, 0, 1, 2, 1) + (243) * mn(p, 0, 1, 5, 3, 0, 0, 3))) + (((1215) * mn(p, 0, 1, 5, 3, 0, 0, 1) + (-3402) * mn(p, 0, 1, 5, 2, 0, 1, 2)) + ((486) * mn(p, 0, 1, 5, 2, 0, 1, 0) + (-324) * mn(p, 0, 1, 5, 1, 2, 0, 2))))) + ((((-162) * mn(p, 0, 1, 5, 1, 2, 0, 0) + ((1215) * mn(p, 0, 1, 5, 1, 0, 2, 3) + (1701) * mn(p, 0, 1, 5, 1, 0, 2, 1))) + (((81) * mn(p, 0, 1, 5, 0, 2, 1, 3) + (405) * mn(p, 0, 1, 5, 0, 2, 1, 1)) + ((-243) * mn(p, 0, 1, 5, 0, 0, 3, 4) + (243) * mn(p, 0, 1, 5, 0, 0, 3, 2)))) + ((((-1458) * mn(p, 0, 1, 5, 0, 0, 3, 0) + (-1701) * mn(p, 0, 0, 6, 2, 1, 0, 2)) + ((243) * mn(p, 0, 0, 6, 2, 1, 0, 0) + (972) * mn(p, 0, 0, 6, 1, 1, 1, 3))) + (((2673) * mn(p, 0, 0, 6, 1, 1, 1, 1) + (-243) * mn(p, 0, 0, 6, 0, 1, 2, 4)) + ((-486) * mn(p, 0, 0, 6, 0, 1, 2, 2) + (-729) * mn(p, 0, 0, 6, 0, 1, 2, 0)))))))));
    let q = (((-1) * mn(p, 0, 0, 0, 3, 0, 0, 0) + (3) * mn(p, 0, 0, 0, 1, 0, 2, 0)) + ((1) * mn(p, 0, 0, 0, 0, 2, 1, 0) + (-1) * mn(p, 0, 0, 0, 0, 0, 3, 1)));
    lemma_mul_is_distributive_add_other_way(q, cc0, c1);
    lemma_mul_is_distributive_add_other_way(q, cc1, c2);
    lemma_mul_is_distributive_add_other_way(q, cc2, c3);
    acc_prod42_c0(p);
    assert(c0 * q == (((((((27) * mn(p, 2, 4, 0, 5, 1, 0, 0) + (-27) * mn(p, 2, 4, 0, 4, 1, 1, 1)) + ((-54) * mn(p, 2, 4, 0, 3, 1, 2, 0) + ((-27) * mn(p, 2, 4, 0, 2, 3, 1, 0) + (108) * mn(p, 2, 4, 0, 2, 1, 3, 1)))) + (((27) * mn(p, 2, 4, 0, 1, 3, 2, 1) + ((-27) * mn(p, 2, 4, 0, 1, 1, 4, 2) + (-81) * mn(p, 2, 4, 0, 1, 1, 4, 0))) + ((-27) * mn(p, 2, 4, 0, 0, 3, 3, 0) + ((27) * mn(p, 2, 4, 0, 0, 1, 5, 1) + (324) * mn(p, 2, 3, 1, 6, 0, 0, 0))))) + ((((-486) * mn(p, 2, 3, 1, 5, 0, 1, 1) + ((-54) * mn(p, 2, 3, 1, 4, 2, 0, 1) + (162) * mn(p, 2, 3, 1, 4, 0, 2, 2))) + ((-648) * mn(p, 2, 3, 1, 4, 0, 2, 0) + ((-216) * mn(p, 2, 3, 1, 3, 2, 1, 0) + (1620) * mn(p, 2, 3, 1, 3, 0, 3, 1)))) + (((648) * mn(p, 2, 3, 1, 2, 2, 2, 1) + ((-972) * mn(p, 2, 3, 1, 2, 0, 4, 2) + (-972) * mn(p, 2, 3, 1, 2, 0, 4, 0))) + ((54) * mn(p, 2, 3, 1, 1, 4, 1, 1) + ((-216) * mn(p, 2, 3, 1, 1, 2, 3, 2) + (-648) * mn(p, 2, 3, 1, 1, 2, 3, 0)))))) + (((((162) * mn(p, 2, 3, 1, 1, 0, 5, 3) + (810) * mn(p, 2, 3, 1, 1, 0, 5, 1)) + ((-108) * mn(p, 2, 3, 1, 0, 4, 2, 0) + ((270) * mn(p, 2, 3, 1, 0, 2, 4, 1) + (-162) * mn(p, 2, 3, 1, 0, 0, 6, 2)))) + (((-729) * mn(p, 2, 2, 2, 5, 1, 0, 1) + ((486) * mn(p, 2, 2, 2, 4, 1, 1, 2) + (972) * mn(p, 2, 2, 2, 4, 1, 1, 0))) + ((81) * mn(p, 2, 2, 2, 3, 3, 0, 0) + ((1458) * mn(p, 2, 2, 2, 3, 1, 2, 1) + (729) * mn(p, 2, 2, 2, 2, 3, 1, 1))))) + ((((-2187) * mn(p, 2, 2, 2, 2, 1, 3, 2) + ((-2916) * mn(p, 2, 2, 2, 2, 1, 3, 0) + (-486) * mn(p, 2, 2, 2, 1, 3, 2, 2))) + ((-1215) * mn(p, 2, 2, 2, 1, 3, 2, 0) + ((486) * mn(p, 2, 2, 2, 1, 1, 4, 3) + (3159) * mn(p, 2, 2, 2, 1, 1, 4, 1)))) + (((-81) * mn(p, 2, 2, 2, 0, 5, 1, 0) + ((810) * mn(p, 2, 2, 2, 0, 3, 3, 1) + (-729) * mn(p, 2, 2, 2, 0, 1, 5, 2))) + ((-2187) * mn(p, 2, 1, 3, 6, 0, 0, 1) + ((1944) * mn(p, 2, 1, 3, 5, 0, 1, 2) + (5346) * mn(p, 2, 1, 3, 5, 0, 1, 0))))))) + ((((((162) * mn(p, 2, 1, 3, 4, 2, 0, 2) + (810) * mn(p, 2, 1, 3, 4, 2, 0, 0)) + ((-486) * mn(p, 2, 1, 3, 4, 0, 2, 3) + ((1944) * mn(p, 2, 1, 3, 4, 0, 2, 1) + (1458) * mn(p, 2, 1, 3, 3, 2, 1, 1)))) + (((-6804) * mn(p, 2, 1, 3, 3, 0, 3, 2) + ((-16524) * mn(p, 2, 1, 3, 3, 0, 3, 0) + (-2430) * mn(p, 2, 1, 3, 2, 2, 2, 2))) + ((-7776) * mn(p, 2, 1, 3, 2, 2, 2, 0) + ((3402) * mn(p, 2, 1, 3, 2, 0, 4, 3) + (19197) * mn(p, 2, 1, 3, 2, 0, 4, 1))))) + ((((-162) * mn(p, 2, 1, 3, 1, 4, 1, 2) + ((-810) * mn(p, 2, 1, 3, 1, 4, 1, 0) + (648) * mn(p, 2, 1, 3, 1, 2, 3, 3))) + ((7614) * mn(p, 2, 1, 3, 1, 2, 3, 1) + ((-486) * mn(p, 2, 1, 3, 1, 0, 5, 4) + (-8262) * mn(p, 2, 1, 3, 1, 0, 5, 2)))) + (((1458) * mn(p, 2, 1, 3, 1, 0, 5, 0) + ((729) * mn(p, 2, 1, 3, 0, 4, 2, 1) + (-1944) * mn(p, 2, 1, 3, 0, 2, 4, 2))) + ((486) * mn(p, 2, 1, 3, 0, 2, 4, 0) + ((1215) * mn(p, 2, 1, 3, 0, 0, 6, 3) + (-486) * mn(p, 2, 1, 3, 0, 0, 6, 1)))))) + (((((972) * mn(p, 2, 0, 4, 5, 1, 0, 2) + (2673) * mn(p, 2, 0, 4, 5, 1, 0, 0)) + ((-243) * mn(p, 2, 0, 4, 4, 1, 1, 3) + ((-5589) * mn(p, 2, 0, 4, 4, 1, 1, 1) + (-1215) * mn(p, 2, 0, 4, 3, 1, 2, 2)))) + (((-8262) * mn(p, 2, 0, 4, 3, 1, 2, 0) + ((-972) * mn(p, 2, 0, 4, 2, 3, 1, 2) + (-2673) * mn(p, 2, 0, 4, 2, 3, 1, 0))) + ((1701) * mn(p, 2, 0, 4, 2, 1, 3, 3) + ((19440) * mn(p, 2, 0, 4, 2, 1, 3, 1) + (243) * mn(p, 2, 0, 4, 1, 3, 2, 3))))) + ((((5589) * mn(p, 2, 0, 4, 1, 3, 2, 1) + ((-243) * mn(p, 2, 0, 4, 1, 1, 4, 4) + (-10692) * mn(p, 2, 0, 4, 1, 1, 4, 2))) + ((729) * mn(p, 2, 0, 4, 1, 1, 4, 0) + ((-1701) * mn(p, 2, 0, 4, 0, 3, 3, 2) + (243) * mn(p, 2, 0, 4, 0, 3, 3, 0)))) + (((1701) * mn(p, 2, 0, 4, 0, 1, 5, 3) + ((-243) * mn(p, 2, 0, 4, 0, 1, 5, 1) + (-81) * mn(p, 1, 4, 1, 5, 1, 0, 1))) + ((243) * mn(p, 1, 4, 1, 3, 1, 2, 1) + ((81) * mn(p, 1, 4, 1, 2, 3, 1, 1) + (-81) * mn(p, 1, 4, 1, 2, 1, 3, 2)))))))));
    acc_prod42_c1(p);
    assert(c1 * q == (((((((324) * mn(p, 1, 4, 1, 4, 1, 1, 0) + (9) * mn(p, 1, 4, 1, 3, 3, 0, 0)) + ((-81) * mn(p, 1, 4, 1, 3, 1, 2, 1) + ((-972) * mn(p, 1, 4, 1, 2, 1, 3, 0) + (-351) * mn(p, 1, 4, 1, 1, 3, 2, 0)))) + (((567) * mn(p, 1, 4, 1, 1, 1, 4, 1) + ((-9) * mn(p, 1, 4, 1, 0, 5, 1, 0) + (90) * mn(p, 1, 4, 1, 0, 3, 3, 1))) + ((-81) * mn(p, 1, 4, 1, 0, 1, 5, 2) + ((-567) * mn(p, 1, 3, 2, 6, 0, 0, 1) + (486) * mn(p, 1, 3, 2, 5, 0, 1, 2))))) + ((((1458) * mn(p, 1, 3, 2, 5, 0, 1, 0) + (378) * mn(p, 1, 3, 2, 4, 2, 0, 0)) + ((378) * mn(p, 1, 3, 2, 3, 2, 1, 1) + ((-1944) * mn(p, 1, 3, 2, 3, 0, 3, 2) + (-3564) * mn(p, 1, 3, 2, 3, 0, 3, 0)))) + (((-486) * mn(p, 1, 3, 2, 2, 2, 2, 2) + ((-2592) * mn(p, 1, 3, 2, 2, 2, 2, 0) + (486) * mn(p, 1, 3, 2, 2, 0, 4, 3))) + ((6561) * mn(p, 1, 3, 2, 2, 0, 4, 1) + ((-378) * mn(p, 1, 3, 2, 1, 4, 1, 0) + (2646) * mn(p, 1, 3, 2, 1, 2, 3, 1)))))) + (((((-1944) * mn(p, 1, 3, 2, 1, 0, 5, 2) + (-2430) * mn(p, 1, 3, 2, 1, 0, 5, 0)) + ((189) * mn(p, 1, 3, 2, 0, 4, 2, 1) + ((-270) * mn(p, 1, 3, 2, 0, 2, 4, 2) + (-810) * mn(p, 1, 3, 2, 0, 2, 4, 0)))) + (((81) * mn(p, 1, 3, 2, 0, 0, 6, 3) + ((810) * mn(p, 1, 3, 2, 0, 0, 6, 1) + (324) * mn(p, 1, 2, 3, 5, 1, 0, 2))) + ((2349) * mn(p, 1, 2, 3, 5, 1, 0, 0) + ((-3645) * mn(p, 1, 2, 3, 4, 1, 1, 1) + (-81) * mn(p, 1, 2, 3, 3, 3, 0, 1))))) + ((((-567) * mn(p, 1, 2, 3, 3, 1, 2, 2) + (-5022) * mn(p, 1, 2, 3, 3, 1, 2, 0)) + ((-324) * mn(p, 1, 2, 3, 2, 3, 1, 2) + ((-2349) * mn(p, 1, 2, 3, 2, 3, 1, 0) + (324) * mn(p, 1, 2, 3, 2, 1, 3, 3)))) + (((13284) * mn(p, 1, 2, 3, 2, 1, 3, 1) + ((3888) * mn(p, 1, 2, 3, 1, 3, 2, 1) + (-4860) * mn(p, 1, 2, 3, 1, 1, 4, 2))) + ((-6075) * mn(p, 1, 2, 3, 1, 1, 4, 0) + ((81) * mn(p, 1, 2, 3, 0, 5, 1, 1) + (-486) * mn(p, 1, 2, 3, 0, 3, 3, 2))))))) + ((((((-2025) * mn(p, 1, 2, 3, 0, 3, 3, 0) + (405) * mn(p, 1, 2, 3, 0, 1, 5, 3)) + ((2025) * mn(p, 1, 2, 3, 0, 1, 5, 1) + ((1215) * mn(p, 1, 1, 4, 6, 0, 0, 2) + (3888) * mn(p, 1, 1, 4, 6, 0, 0, 0)))) + (((-486) * mn(p, 1, 1, 4, 5, 0, 1, 3) + ((-11178) * mn(p, 1, 1, 4, 5, 0, 1, 1) + (-1458) * mn(p, 1, 1, 4, 4, 2, 0, 1))) + ((1944) * mn(p, 1, 1, 4, 4, 0, 2, 2) + ((-7776) * mn(p, 1, 1, 4, 4, 0, 2, 0) + (-810) * mn(p, 1, 1, 4, 3, 2, 1, 2))))) + ((((-2592) * mn(p, 1, 1, 4, 3, 2, 1, 0) + (1944) * mn(p, 1, 1, 4, 3, 0, 3, 3)) + ((35964) * mn(p, 1, 1, 4, 3, 0, 3, 1) + ((486) * mn(p, 1, 1, 4, 2, 2, 2, 3) + (15552) * mn(p, 1, 1, 4, 2, 2, 2, 1)))) + (((-486) * mn(p, 1, 1, 4, 2, 0, 4, 4) + ((-27945) * mn(p, 1, 1, 4, 2, 0, 4, 2) + (-11664) * mn(p, 1, 1, 4, 2, 0, 4, 0))) + ((1458) * mn(p, 1, 1, 4, 1, 4, 1, 1) + ((-8262) * mn(p, 1, 1, 4, 1, 2, 3, 2) + (-7776) * mn(p, 1, 1, 4, 1, 2, 3, 0)))))) + (((((7776) * mn(p, 1, 1, 4, 1, 0, 5, 3) + (8262) * mn(p, 1, 1, 4, 1, 0, 5, 1)) + ((-405) * mn(p, 1, 1, 4, 0, 4, 2, 2) + ((-1296) * mn(p, 1, 1, 4, 0, 4, 2, 0) + (1134) * mn(p, 1, 1, 4, 0, 2, 4, 3)))) + (((2754) * mn(p, 1, 1, 4, 0, 2, 4, 1) + ((-729) * mn(p, 1, 1, 4, 0, 0, 6, 4) + (-1458) * mn(p, 1, 1, 4, 0, 0, 6, 2))) + ((-243) * mn(p, 1, 0, 5, 5, 1, 0, 3) + ((-5589) * mn(p, 1, 0, 5, 5, 1, 0, 1) + (4617) * mn(p, 1, 0, 5, 4, 1, 1, 2))))) + ((((7776) * mn(p, 1, 0, 5, 4, 1, 1, 0) + ((729) * mn(p, 1, 0, 5, 3, 1, 2, 3) + (16767) * mn(p, 1, 0, 5, 3, 1, 2, 1))) + ((243) * mn(p, 1, 0, 5, 2, 3, 1, 3) + ((5589) * mn(p, 1, 0, 5, 2, 3, 1, 1) + (-243) * mn(p, 1, 0, 5, 2, 1, 3, 4)))) + (((-19440) * mn(p, 1, 0, 5, 2, 1, 3, 2) + ((-23328) * mn(p, 1, 0, 5, 2, 1, 3, 0) + (-4617) * mn(p, 1, 0, 5, 1, 3, 2, 2))) + ((-7776) * mn(p, 1, 0, 5, 1, 3, 2, 0) + ((4617) * mn(p, 1, 0, 5, 1, 1, 4, 3) + (7776) * mn(p, 1, 0, 5, 1, 1, 4, 1)))))))));
    acc_prod42_c2(p);
    assert(c2 * q == (((((((-972) * mn(p, 1, 0, 5, 3, 1, 2, 3) + (-2673) * mn(p, 1, 0, 5, 3, 1, 2, 1)) + ((2916) * mn(p, 1, 0, 5, 1, 1, 4, 3) + ((8019) * mn(p, 1, 0, 5, 1, 1, 4, 1) + (972) * mn(p, 1, 0, 5, 0, 3, 3, 3)))) + (((2673) * mn(p, 1, 0, 5, 0, 3, 3, 1) + ((-972) * mn(p, 1, 0, 5, 0, 1, 5, 4) + (-2673) * mn(p, 1, 0, 5, 0, 1, 5, 2))) + ((-1) * mn(p, 0, 6, 0, 3, 3, 0, 0) + ((3) * mn(p, 0, 6, 0, 1, 3, 2, 0) + (1) * mn(p, 0, 6, 0, 0, 5, 1, 0))))) + ((((-1) * mn(p, 0, 6, 0, 0, 3, 3, 1) + (-27) * mn(p, 0, 5, 1, 6, 0, 0, 1)) + ((162) * mn(p, 0, 5, 1, 5, 0, 1, 0) + ((18) * mn(p, 0, 5, 1, 4, 2, 0, 0) + (18) * mn(p, 0, 5, 1, 3, 2, 1, 1)))) + (((-540) * mn(p, 0, 5, 1, 3, 0, 3, 0) + ((-216) * mn(p, 0, 5, 1, 2, 2, 2, 0) + (405) * mn(p, 0, 5, 1, 2, 0, 4, 1))) + ((-18) * mn(p, 0, 5, 1, 1, 4, 1, 0) + ((126) * mn(p, 0, 5, 1, 1, 2, 3, 1) + (-162) * mn(p, 0, 5, 1, 1, 0, 5, 2)))))) + (((((162) * mn(p, 0, 5, 1, 1, 0, 5, 0) + (9) * mn(p, 0, 5, 1, 0, 4, 2, 1)) + ((-36) * mn(p, 0, 5, 1, 0, 2, 4, 2) + ((54) * mn(p, 0, 5, 1, 0, 2, 4, 0) + (27) * mn(p, 0, 5, 1, 0, 0, 6, 3)))) + (((-54) * mn(p, 0, 5, 1, 0, 0, 6, 1) + ((540) * mn(p, 0, 4, 2, 5, 1, 0, 0) + (-540) * mn(p, 0, 4, 2, 4, 1, 1, 1))) + ((-18) * mn(p, 0, 4, 2, 3, 3, 0, 1) + ((135) * mn(p, 0, 4, 2, 3, 1, 2, 2) + (-1620) * mn(p, 0, 4, 2, 3, 1, 2, 0))))) + ((((-540) * mn(p, 0, 4, 2, 2, 3, 1, 0) + (2160) * mn(p, 0, 4, 2, 2, 1, 3, 1)) + ((594) * mn(p, 0, 4, 2, 1, 3, 2, 1) + ((-945) * mn(p, 0, 4, 2, 1, 1, 4, 2) + (18) * mn(p, 0, 4, 2, 0, 5, 1, 1)))) + (((-153) * mn(p, 0, 4, 2, 0, 3, 3, 2) + ((135) * mn(p, 0, 4, 2, 0, 1, 5, 3) + (270) * mn(p, 0, 3, 3, 6, 0, 0, 2))) + ((1188) * mn(p, 0, 3, 3, 6, 0, 0, 0) + ((-3402) * mn(p, 0, 3, 3, 5, 0, 1, 1) + (-378) * mn(p, 0, 3, 3, 4, 2, 0, 1))))))) + ((((((162) * mn(p, 0, 3, 3, 4, 0, 2, 2) + (-648) * mn(p, 0, 3, 3, 4, 0, 2, 0)) + ((-108) * mn(p, 0, 3, 3, 3, 2, 1, 2) + ((-1080) * mn(p, 0, 3, 3, 3, 2, 1, 0) + (216) * mn(p, 0, 3, 3, 3, 0, 3, 3)))) + (((10476) * mn(p, 0, 3, 3, 3, 0, 3, 1) + ((4536) * mn(p, 0, 3, 3, 2, 2, 2, 1) + (-6318) * mn(p, 0, 3, 3, 2, 0, 4, 2))) + ((-8748) * mn(p, 0, 3, 3, 2, 0, 4, 0) + ((378) * mn(p, 0, 3, 3, 1, 4, 1, 1) + (-1836) * mn(p, 0, 3, 3, 1, 2, 3, 2))))) + ((((-3240) * mn(p, 0, 3, 3, 1, 2, 3, 0) + (1134) * mn(p, 0, 3, 3, 1, 0, 5, 3)) + ((5670) * mn(p, 0, 3, 3, 1, 0, 5, 1) + ((-162) * mn(p, 0, 3, 3, 0, 4, 2, 2) + (-108) * mn(p, 0, 3, 3, 0, 4, 2, 0)))) + (((216) * mn(p, 0, 3, 3, 0, 2, 4, 3) + ((1026) * mn(p, 0, 3, 3, 0, 2, 4, 1) + (-54) * mn(p, 0, 3, 3, 0, 0, 6, 4))) + ((-918) * mn(p, 0, 3, 3, 0, 0, 6, 2) + ((-2187) * mn(p, 0, 2, 4, 5, 1, 0, 1) + (1296) * mn(p, 0, 2, 4, 4, 1, 1, 2)))))) + (((((3564) * mn(p, 0, 2, 4, 4, 1, 1, 0) + (27) * mn(p, 0, 2, 4, 3, 3, 0, 2)) + ((-27) * mn(p, 0, 2, 4, 3, 3, 0, 0) + ((-162) * mn(p, 0, 2, 4, 3, 1, 2, 3) + (5022) * mn(p, 0, 2, 4, 3, 1, 2, 1)))) + (((2187) * mn(p, 0, 2, 4, 2, 3, 1, 1) + ((-6075) * mn(p, 0, 2, 4, 2, 1, 3, 2) + (-10692) * mn(p, 0, 2, 4, 2, 1, 3, 0))) + ((-1377) * mn(p, 0, 2, 4, 1, 3, 2, 2) + ((-3483) * mn(p, 0, 2, 4, 1, 3, 2, 0) + (1782) * mn(p, 0, 2, 4, 1, 1, 4, 3))))) + ((((8181) * mn(p, 0, 2, 4, 1, 1, 4, 1) + (-27) * mn(p, 0, 2, 4, 0, 5, 1, 2)) + ((27) * mn(p, 0, 2, 4, 0, 5, 1, 0) + ((189) * mn(p, 0, 2, 4, 0, 3, 3, 3) + (1512) * mn(p, 0, 2, 4, 0, 3, 3, 1)))) + (((-162) * mn(p, 0, 2, 4, 0, 1, 5, 4) + ((-1539) * mn(p, 0, 2, 4, 0, 1, 5, 2) + (-243) * mn(p, 0, 1, 5, 6, 0, 0, 3))) + ((729) * mn(p, 0, 1, 5, 4, 0, 2, 3) + ((243) * mn(p, 0, 1, 5, 3, 2, 1, 3) + (-243) * mn(p, 0, 1, 5, 3, 0, 3, 4)))))))));
    acc_prod42_c3(p);
    assert(c3 * q == ((((((-1215) * mn(p, 0, 1, 5, 6, 0, 0, 1) + ((3402) * mn(p, 0, 1, 5, 5, 0, 1, 2) + (-486) * mn(p, 0, 1, 5, 5, 0, 1, 0))) + ((324) * mn(p, 0, 1, 5, 4, 2, 0, 2) + ((162) * mn(p, 0, 1, 5, 4, 2, 0, 0) + (-1215) * mn(p, 0, 1, 5, 4, 0, 2, 3)))) + (((1944) * mn(p, 0, 1, 5, 4, 0, 2, 1) + ((-81) * mn(p, 0, 1, 5, 3, 2, 1, 3) + (810) * mn(p, 0, 1, 5, 3, 2, 1, 1))) + (((243) * mn(p, 0, 1, 5, 3, 0, 3, 4) + (-11664) * mn(p, 0, 1, 5, 3, 0, 3, 2)) + ((2916) * mn(p, 0, 1, 5, 3, 0, 3, 0) + (-4374) * mn(p, 0, 1, 5, 2, 2, 2, 2))))) + ((((7047) * mn(p, 0, 1, 5, 2, 0, 4, 3) + ((4617) * mn(p, 0, 1, 5, 2, 0, 4, 1) + (-324) * mn(p, 0, 1, 5, 1, 4, 1, 2))) + ((-162) * mn(p, 0, 1, 5, 1, 4, 1, 0) + ((1782) * mn(p, 0, 1, 5, 1, 2, 3, 3) + (3078) * mn(p, 0, 1, 5, 1, 2, 3, 1)))) + (((-1944) * mn(p, 0, 1, 5, 1, 0, 5, 4) + ((-972) * mn(p, 0, 1, 5, 1, 0, 5, 2) + (-4374) * mn(p, 0, 1, 5, 1, 0, 5, 0))) + (((81) * mn(p, 0, 1, 5, 0, 4, 2, 3) + (405) * mn(p, 0, 1, 5, 0, 4, 2, 1)) + ((-324) * mn(p, 0, 1, 5, 0, 2, 4, 4) + (-162) * mn(p, 0, 1, 5, 0, 2, 4, 2)))))) + (((((-1458) * mn(p, 0, 1, 5, 0, 2, 4, 0) + ((243) * mn(p, 0, 1, 5, 0, 0, 6, 5) + (-243) * mn(p, 0, 1, 5, 0, 0, 6, 3))) + ((1458) * mn(p, 0, 1, 5, 0, 0, 6, 1) + ((1701) * mn(p, 0, 0, 6, 5, 1, 0, 2) + (-243) * mn(p, 0, 0, 6, 5, 1, 0, 0)))) + (((-972) * mn(p, 0, 0, 6, 4, 1, 1, 3) + ((-2673) * mn(p, 0, 0, 6, 4, 1, 1, 1) + (243) * mn(p, 0, 0, 6, 3, 1, 2, 4))) + (((-4617) * mn(p, 0, 0, 6, 3, 1, 2, 2) + (1458) * mn(p, 0, 0, 6, 3, 1, 2, 0)) + ((-1701) * mn(p, 0, 0, 6, 2, 3, 1, 2) + (243) * mn(p, 0, 0, 6, 2, 3, 1, 0))))) + ((((4617) * mn(p, 0, 0, 6, 2, 1, 3, 3) + ((7776) * mn(p, 0, 0, 6, 2, 1, 3, 1) + (972) * mn(p, 0, 0, 6, 1, 3, 2, 3))) + ((2673) * mn(p, 0, 0, 6, 1, 3, 2, 1) + ((-1701) * mn(p, 0, 0, 6, 1, 1, 4, 4) + (-4131) * mn(p, 0, 0, 6, 1, 1, 4, 2)))) + (((-2187) * mn(p, 0, 0, 6, 1, 1, 4, 0) + ((-243) * mn(p, 0, 0, 6, 0, 3, 3, 4) + (-486) * mn(p, 0, 0, 6, 0, 3, 3, 2))) + (((-729) * mn(p, 0, 0, 6, 0, 3, 3, 0) + (243) * mn(p, 0, 0, 6, 0, 1, 5, 5)) + ((486) * mn(p, 0, 0, 6, 0, 1, 5, 3) + (729) * mn(p, 0, 0, 6, 0, 1, 5, 1))))))));
    assert(cc3 * q == (((((((((27) * mn(p, 2, 4, 0, 5, 1, 0, 0) + (-27) * mn(p, 2, 4, 0, 4, 1, 1, 1)) + ((-54) * mn(p, 2, 4, 0, 3, 1, 2, 0) + (-27) * mn(p, 2, 4, 0, 2, 3, 1, 0))) + (((108) * mn(p, 2, 4, 0, 2, 1, 3, 1) + (27) * mn(p, 2, 4, 0, 1, 3, 2, 1)) + ((-27) * mn(p, 2, 4, 0, 1, 1, 4, 2) + ((-81) * mn(p, 2, 4, 0, 1, 1, 4, 0) + (-27) * mn(p, 2, 4, 0, 0, 3, 3, 0))))) + ((((27) * mn(p, 2, 4, 0, 0, 1, 5, 1) + (324) * mn(p, 2, 3, 1, 6, 0, 0, 0)) + ((-486) * mn(p, 2, 3, 1, 5, 0, 1, 1) + ((-54) * mn(p, 2, 3, 1, 4, 2, 0, 1) + (162) * mn(p, 2, 3, 1, 4, 0, 2, 2)))) + (((-648) * mn(p, 2, 3, 1, 4, 0, 2, 0) + (-216) * mn(p, 2, 3, 1, 3, 2, 1, 0)) + ((1620) * mn(p, 2, 3, 1, 3, 0, 3, 1) + ((648) * mn(p, 2, 3, 1, 2, 2, 2, 1) + (-972) * mn(p, 2, 3, 1, 2, 0, 4, 2)))))) + (((((-972) * mn(p, 2, 3, 1, 2, 0, 4, 0) + (54) * mn(p, 2, 3, 1, 1, 4, 1, 1)) + ((-216) * mn(p, 2, 3, 1, 1, 2, 3, 2) + ((-648) * mn(p, 2, 3, 1, 1, 2, 3, 0) + (162) * mn(p, 2, 3, 1, 1, 0, 5, 3)))) + (((810) * mn(p, 2, 3, 1, 1, 0, 5, 1) + (-108) * mn(p, 2, 3, 1, 0, 4, 2, 0)) + ((270) * mn(p, 2, 3, 1, 0, 2, 4, 1) + ((-162) * mn(p, 2, 3, 1, 0, 0, 6, 2) + (-729) * mn(p, 2, 2, 2, 5, 1, 0, 1))))) + ((((486) * mn(p, 2, 2, 2, 4, 1, 1, 2) + (972) * mn(p, 2, 2, 2, 4, 1, 1, 0)) + ((81) * mn(p, 2, 2, 2, 3, 3, 0, 0) + ((1458) * mn(p, 2, 2, 2, 3, 1, 2, 1) + (729) * mn(p, 2, 2, 2, 2, 3, 1, 1)))) + (((-2187) * mn(p, 2, 2, 2, 2, 1, 3, 2) + (-2916) * mn(p, 2, 2, 2, 2, 1, 3, 0)) + ((-486) * mn(p, 2, 2, 2, 1, 3, 2, 2) + ((-1215) * mn(p, 2, 2, 2, 1, 3, 2, 0) + (486) * mn(p, 2, 2, 2, 1, 1, 4, 3))))))) + ((((((3159) * mn(p, 2, 2, 2, 1, 1, 4, 1) + (-81) * mn(p, 2, 2, 2, 0, 5, 1, 0)) + ((810) * mn(p, 2, 2, 2, 0, 3, 3, 1) + (-729) * mn(p, 2, 2, 2, 0, 1, 5, 2))) + (((-2187) * mn(p, 2, 1, 3, 6, 0, 0, 1) + (1944) * mn(p, 2, 1, 3, 5, 0, 1, 2)) + ((5346) * mn(p, 2, 1, 3, 5, 0, 1, 0) + ((162) * mn(p, 2, 1, 3, 4, 2, 0, 2) + (810) * mn(p, 2, 1, 3, 4, 2, 0, 0))))) + ((((-486) * mn(p, 2, 1, 3, 4, 0, 2, 3) + (1944) * mn(p, 2, 1, 3, 4, 0, 2, 1)) + ((1458) * mn(p, 2, 1, 3, 3, 2, 1, 1) + ((-6804) * mn(p, 2, 1, 3, 3, 0, 3, 2) + (-16524) * mn(p, 2, 1, 3, 3, 0, 3, 0)))) + (((-2430) * mn(p, 2, 1, 3, 2, 2, 2, 2) + (-7776) * mn(p, 2, 1, 3, 2, 2, 2, 0)) + ((3402) * mn(p, 2, 1, 3, 2, 0, 4, 3) + ((19197) * mn(p, 2, 1, 3, 2, 0, 4, 1) + (-162) * mn(p, 2, 1, 3, 1, 4, 1, 2)))))) + (((((-810) * mn(p, 2, 1, 3, 1, 4, 1, 0) + (648) * mn(p, 2, 1, 3, 1, 2, 3, 3)) + ((7614) * mn(p, 2, 1, 3, 1, 2, 3, 1) + ((-486) * mn(p, 2, 1, 3, 1, 0, 5, 4) + (-8262) * mn(p, 2, 1, 3, 1, 0, 5, 2)))) + (((1458) * mn(p, 2, 1, 3, 1, 0, 5, 0) + (729) * mn(p, 2, 1, 3, 0, 4, 2, 1)) + ((-1944) * mn(p, 2, 1, 3, 0, 2, 4, 2) + ((486) * mn(p, 2, 1, 3, 0, 2, 4, 0) + (1215) * mn(p, 2, 1, 3, 0, 0, 6, 3))))) + ((((-486) * mn(p, 2, 1, 3, 0, 0, 6, 1) + (972) * mn(p, 2, 0, 4, 5, 1, 0, 2)) + ((2673) * mn(p, 2, 0, 4, 5, 1, 0, 0) + ((-243) * mn(p, 2, 0, 4, 4, 1, 1, 3) + (-5589) * mn(p, 2, 0, 4, 4, 1, 1, 1)))) + (((-1215) * mn(p, 2, 0, 4, 3, 1, 2, 2) + (-8262) * mn(p, 2, 0, 4, 3, 1, 2, 0)) + ((-972) * mn(p, 2, 0, 4, 2, 3, 1, 2) + ((-2673) * mn(p, 2, 0, 4, 2, 3, 1, 0) + (1701) * mn(p, 2, 0, 4, 2, 1, 3, 3)))))))) + (((((((19440) * mn(p, 2, 0, 4, 2, 1, 3, 1) + (243) * mn(p, 2, 0, 4, 1, 3, 2, 3)) + ((5589) * mn(p, 2, 0, 4, 1, 3, 2, 1) + (-243) * mn(p, 2, 0, 4, 1, 1, 4, 4))) + (((-10692) * mn(p, 2, 0, 4, 1, 1, 4, 2) + (729) * mn(p, 2, 0, 4, 1, 1, 4, 0)) + ((-1701) * mn(p, 2, 0, 4, 0, 3, 3, 2) + ((243) * mn(p, 2, 0, 4, 0, 3, 3, 0) + (1701) * mn(p, 2, 0, 4, 0, 1, 5, 3))))) + ((((-243) * mn(p, 2, 0, 4, 0, 1, 5, 1) + (-81) * mn(p, 1, 4, 1, 5, 1, 0, 1)) + ((324) * mn(p, 1, 4, 1, 4, 1, 1, 0) + ((9) * mn(p, 1, 4, 1, 3, 3, 0, 0) + (162) * mn(p, 1, 4, 1, 3, 1, 2, 1)))) + (((81) * mn(p, 1, 4, 1, 2, 3, 1, 1) + (-81) * mn(p, 1, 4, 1, 2, 1, 3, 2)) + ((-972) * mn(p, 1, 4, 1, 2, 1, 3, 0) + ((-351) * mn(p, 1, 4, 1, 1, 3, 2, 0) + (567) * mn(p, 1, 4, 1, 1, 1, 4, 1)))))) + (((((-9) * mn(p, 1, 4, 1, 0, 5, 1, 0) + (90) * mn(p, 1, 4, 1, 0, 3, 3, 1)) + ((-81) * mn(p, 1, 4, 1, 0, 1, 5, 2) + ((-567) * mn(p, 1, 3, 2, 6, 0, 0, 1) + (486) * mn(p, 1, 3, 2, 5, 0, 1, 2)))) + (((1458) * mn(p, 1, 3, 2, 5, 0, 1, 0) + (378) * mn(p, 1, 3, 2, 4, 2, 0, 0)) + ((378) * mn(p, 1, 3, 2, 3, 2, 1, 1) + ((-1944) * mn(p, 1, 3, 2, 3, 0, 3, 2) + (-3564) * mn(p, 1, 3, 2, 3, 0, 3, 0))))) + ((((-486) * mn(p, 1, 3, 2, 2, 2, 2, 2) + (-2592) * mn(p, 1, 3, 2, 2, 2, 2, 0)) + ((486) * mn(p, 1, 3, 2, 2, 0, 4, 3) + ((6561) * mn(p, 1, 3, 2, 2, 0, 4, 1) + (-378) * mn(p, 1, 3, 2, 1, 4, 1, 0)))) + (((2646) * mn(p, 1, 3, 2, 1, 2, 3, 1) + (-1944) * mn(p, 1, 3, 2, 1, 0, 5, 2)) + ((-2430) * mn(p, 1, 3, 2, 1, 0, 5, 0) + ((189) * mn(p, 1, 3, 2, 0, 4, 2, 1) + (-270) * mn(p, 1, 3, 2, 0, 2, 4, 2))))))) + ((((((-810) * mn(p, 1, 3, 2, 0, 2, 4, 0) + (81) * mn(p, 1, 3, 2, 0, 0, 6, 3)) + ((810) * mn(p, 1, 3, 2, 0, 0, 6, 1) + (324) * mn(p, 1, 2, 3, 5, 1, 0, 2))) + (((2349) * mn(p, 1, 2, 3, 5, 1, 0, 0) + (-3645) * mn(p, 1, 2, 3, 4, 1, 1, 1)) + ((-81) * mn(p, 1, 2, 3, 3, 3, 0, 1) + ((-567) * mn(p, 1, 2, 3, 3, 1, 2, 2) + (-5022) * mn(p, 1, 2, 3, 3, 1, 2, 0))))) + ((((-324) * mn(p, 1, 2, 3, 2, 3, 1, 2) + (-2349) * mn(p, 1, 2, 3, 2, 3, 1, 0)) + ((324) * mn(p, 1, 2, 3, 2, 1, 3, 3) + ((13284) * mn(p, 1, 2, 3, 2, 1, 3, 1) + (3888) * mn(p, 1, 2, 3, 1, 3, 2, 1)))) + (((-4860) * mn(p, 1, 2, 3, 1, 1, 4, 2) + (-6075) * mn(p, 1, 2, 3, 1, 1, 4, 0)) + ((81) * mn(p, 1, 2, 3, 0, 5, 1, 1) + ((-486) * mn(p, 1, 2, 3, 0, 3, 3, 2) + (-2025) * mn(p, 1, 2, 3, 0, 3, 3, 0)))))) + (((((405) * mn(p, 1, 2, 3, 0, 1, 5, 3) + (2025) * mn(p, 1, 2, 3, 0, 1, 5, 1)) + ((1215) * mn(p, 1, 1, 4, 6, 0, 0, 2) + ((3888) * mn(p, 1, 1, 4, 6, 0, 0, 0) + (-486) * mn(p, 1, 1, 4, 5, 0, 1, 3)))) + (((-11178) * mn(p, 1, 1, 4, 5, 0, 1, 1) + (-1458) * mn(p, 1, 1, 4, 4, 2, 0, 1)) + ((1944) * mn(p, 1, 1, 4, 4, 0, 2, 2) + ((-7776) * mn(p, 1, 1, 4, 4, 0, 2, 0) + (-810) * mn(p, 1, 1, 4, 3, 2, 1, 2))))) + ((((-2592) * mn(p, 1, 1, 4, 3, 2, 1, 0) + (1944) * mn(p, 1, 1, 4, 3, 0, 3, 3)) + ((35964) * mn(p, 1, 1, 4, 3, 0, 3, 1) + ((486) * mn(p, 1, 1, 4, 2, 2, 2, 3) + (15552) * mn(p, 1, 1, 4, 2, 2, 2, 1)))) + (((-486) * mn(p, 1, 1, 4, 2, 0, 4, 4) + (-27945) * mn(p, 1, 1, 4, 2, 0, 4, 2)) + ((-11664) * mn(p, 1, 1, 4, 2, 0, 4, 0) + ((1458) * mn(p, 1, 1, 4, 1, 4, 1, 1) + (-8262) * mn(p, 1, 1, 4, 1, 2, 3, 2))))))))) + ((((((((-7776) * mn(p, 1, 1, 4, 1, 2, 3, 0) + (7776) * mn(p, 1, 1, 4, 1, 0, 5, 3)) + ((8262) * mn(p, 1, 1, 4, 1, 0, 5, 1) + (-405) * mn(p, 1, 1, 4, 0, 4, 2, 2))) + (((-1296) * mn(p, 1, 1, 4, 0, 4, 2, 0) + (1134) * mn(p, 1, 1, 4, 0, 2, 4, 3)) + ((2754) * mn(p, 1, 1, 4, 0, 2, 4, 1) + ((-729) * mn(p, 1, 1, 4, 0, 0, 6, 4) + (-1458) * mn(p, 1, 1, 4, 0, 0, 6, 2))))) + ((((-243) * mn(p, 1, 0, 5, 5, 1, 0, 3) + (-5589) * mn(p, 1, 0, 5, 5, 1, 0, 1)) + ((4617) * mn(p, 1, 0, 5, 4, 1, 1, 2) + ((7776) * mn(p, 1, 0, 5, 4, 1, 1, 0) + (-243) * mn(p, 1, 0, 5, 3, 1, 2, 3)))) + (((14094) * mn(p, 1, 0, 5, 3, 1, 2, 1) + (243) * mn(p, 1, 0, 5, 2, 3, 1, 3)) + ((5589) * mn(p, 1, 0, 5, 2, 3, 1, 1) + ((-243) * mn(p, 1, 0, 5, 2, 1, 3, 4) + (-19440) * mn(p, 1, 0, 5, 2, 1, 3, 2)))))) + (((((-23328) * mn(p, 1, 0, 5, 2, 1, 3, 0) + (-4617) * mn(p, 1, 0, 5, 1, 3, 2, 2)) + ((-7776) * mn(p, 1, 0, 5, 1, 3, 2, 0) + ((7533) * mn(p, 1, 0, 5, 1, 1, 4, 3) + (15795) * mn(p, 1, 0, 5, 1, 1, 4, 1)))) + (((972) * mn(p, 1, 0, 5, 0, 3, 3, 3) + (2673) * mn(p, 1, 0, 5, 0, 3, 3, 1)) + ((-972) * mn(p, 1, 0, 5, 0, 1, 5, 4) + ((-2673) * mn(p, 1, 0, 5, 0, 1, 5, 2) + (-1) * mn(p, 0, 6, 0, 3, 3, 0, 0))))) + ((((3) * mn(p, 0, 6, 0, 1, 3, 2, 0) + (1) * mn(p, 0, 6, 0, 0, 5, 1, 0)) + ((-1) * mn(p, 0, 6, 0, 0, 3, 3, 1) + ((-27) * mn(p, 0, 5, 1, 6, 0, 0, 1) + (162) * mn(p, 0, 5, 1, 5, 0, 1, 0)))) + (((18) * mn(p, 0, 5, 1, 4, 2, 0, 0) + (18) * mn(p, 0, 5, 1, 3, 2, 1, 1)) + ((-540) * mn(p, 0, 5, 1, 3, 0, 3, 0) + ((-216) * mn(p, 0, 5, 1, 2, 2, 2, 0) + (405) * mn(p, 0, 5, 1, 2, 0, 4, 1))))))) + ((((((-18) * mn(p, 0, 5, 1, 1, 4, 1, 0) + (126) * mn(p, 0, 5, 1, 1, 2, 3, 1)) + ((-162) * mn(p, 0, 5, 1, 1, 0, 5, 2) + (162) * mn(p, 0, 5, 1, 1, 0, 5, 0))) + (((9) * mn(p, 0, 5, 1, 0, 4, 2, 1) + (-36) * mn(p, 0, 5, 1, 0, 2, 4, 2)) + ((54) * mn(p, 0, 5, 1, 0, 2, 4, 0) + ((27) * mn(p, 0, 5, 1, 0, 0, 6, 3) + (-54) * mn(p, 0, 5, 1, 0, 0, 6, 1))))) + ((((540) * mn(p, 0, 4, 2, 5, 1, 0, 0) + (-540) * mn(p, 0, 4, 2, 4, 1, 1, 1)) + ((-18) * mn(p, 0, 4, 2, 3, 3, 0, 1) + ((135) * mn(p, 0, 4, 2, 3, 1, 2, 2) + (-1620) * mn(p, 0, 4, 2, 3, 1, 2, 0)))) + (((-540) * mn(p, 0, 4, 2, 2, 3, 1, 0) + (2160) * mn(p, 0, 4, 2, 2, 1, 3, 1)) + ((594) * mn(p, 0, 4, 2, 1, 3, 2, 1) + ((-945) * mn(p, 0, 4, 2, 1, 1, 4, 2) + (18) * mn(p, 0, 4, 2, 0, 5, 1, 1)))))) + (((((-153) * mn(p, 0, 4, 2, 0, 3, 3, 2) + (135) * mn(p, 0, 4, 2, 0, 1, 5, 3)) + ((270) * mn(p, 0, 3, 3, 6, 0, 0, 2) + ((1188) * mn(p, 0, 3, 3, 6, 0, 0, 0) + (-3402) * mn(p, 0, 3, 3, 5, 0, 1, 1)))) + (((-378) * mn(p, 0, 3, 3, 4, 2, 0, 1) + (162) * mn(p, 0, 3, 3, 4, 0, 2, 2)) + ((-648) * mn(p, 0, 3, 3, 4, 0, 2, 0) + ((-108) * mn(p, 0, 3, 3, 3, 2, 1, 2) + (-1080) * mn(p, 0, 3, 3, 3, 2, 1, 0))))) + ((((216) * mn(p, 0, 3, 3, 3, 0, 3, 3) + (10476) * mn(p, 0, 3, 3, 3, 0, 3, 1)) + ((4536) * mn(p, 0, 3, 3, 2, 2, 2, 1) + ((-6318) * mn(p, 0, 3, 3, 2, 0, 4, 2) + (-8748) * mn(p, 0, 3, 3, 2, 0, 4, 0)))) + (((378) * mn(p, 0, 3, 3, 1, 4, 1, 1) + (-1836) * mn(p, 0, 3, 3, 1, 2, 3, 2)) + ((-3240) * mn(p, 0, 3, 3, 1, 2, 3, 0) + ((1134) * mn(p, 0, 3, 3, 1, 0, 5, 3) + (5670) * mn(p, 0, 3, 3, 1, 0, 5, 1)))))))) + (((((((-162) * mn(p, 0, 3, 3, 0, 4, 2, 2) + (-108) * mn(p, 0, 3, 3, 0, 4, 2, 0)) + ((216) * mn(p, 0, 3, 3, 0, 2, 4, 3) + (1026) * mn(p, 0, 3, 3, 0, 2, 4, 1))) + (((-54) * mn(p, 0, 3, 3, 0, 0, 6, 4) + (-918) * mn(p, 0, 3, 3, 0, 0, 6, 2)) + ((-2187) * mn(p, 0, 2, 4, 5, 1, 0, 1) + ((1296) * mn(p, 0, 2, 4, 4, 1, 1, 2) + (3564) * mn(p, 0, 2, 4, 4, 1, 1, 0))))) + ((((27) * mn(p, 0, 2, 4, 3, 3, 0, 2) + (-27) * mn(p, 0, 2, 4, 3, 3, 0, 0)) + ((-162) * mn(p, 0, 2, 4, 3, 1, 2, 3) + ((5022) * mn(p, 0, 2, 4, 3, 1, 2, 1) + (2187) * mn(p, 0, 2, 4, 2, 3, 1, 1)))) + (((-6075) * mn(p, 0, 2, 4, 2, 1, 3, 2) + (-10692) * mn(p, 0, 2, 4, 2, 1, 3, 0)) + ((-1377) * mn(p, 0, 2, 4, 1, 3, 2, 2) + ((-3483) * mn(p, 0, 2, 4, 1, 3, 2, 0) + (1782) * mn(p, 0, 2, 4, 1, 1, 4, 3)))))) + (((((8181) * mn(p, 0, 2, 4, 1, 1, 4, 1) + (-27) * mn(p, 0, 2, 4, 0, 5, 1, 2)) + ((27) * mn(p, 0, 2, 4, 0, 5, 1, 0) + ((189) * mn(p, 0, 2, 4, 0, 3, 3, 3) + (1512) * mn(p, 0, 2, 4, 0, 3, 3, 1)))) + (((-162) * mn(p, 0, 2, 4, 0, 1, 5, 4) + (-1539) * mn(p, 0, 2, 4, 0, 1, 5, 2)) + ((-243) * mn(p, 0, 1, 5, 6, 0, 0, 3) + ((-1215) * mn(p, 0, 1, 5, 6, 0, 0, 1) + (3402) * mn(p, 0, 1, 5, 5, 0, 1, 2))))) + ((((-486) * mn(p, 0, 1, 5, 5, 0, 1, 0) + (324) * mn(p, 0, 1, 5, 4, 2, 0, 2)) + ((162) * mn(p, 0, 1, 5, 4, 2, 0, 0) + ((-486) * mn(p, 0, 1, 5, 4, 0, 2, 3) + (1944) * mn(p, 0, 1, 5, 4, 0, 2, 1)))) + (((162) * mn(p, 0, 1, 5, 3, 2, 1, 3) + (810) * mn(p, 0, 1, 5, 3, 2, 1, 1)) + ((-11664) * mn(p, 0, 1, 5, 3, 0, 3, 2) + ((2916) * mn(p, 0, 1, 5, 3, 0, 3, 0) + (-4374) * mn(p, 0, 1, 5, 2, 2, 2, 2))))))) + ((((((7047) * mn(p, 0, 1, 5, 2, 0, 4, 3) + (4617) * mn(p, 0, 1, 5, 2, 0, 4, 1)) + ((-324) * mn(p, 0, 1, 5, 1, 4, 1, 2) + (-162) * mn(p, 0, 1, 5, 1, 4, 1, 0))) + (((1782) * mn(p, 0, 1, 5, 1, 2, 3, 3) + (3078) * mn(p, 0, 1, 5, 1, 2, 3, 1)) + ((-1944) * mn(p, 0, 1, 5, 1, 0, 5, 4) + ((-972) * mn(p, 0, 1, 5, 1, 0, 5, 2) + (-4374) * mn(p, 0, 1, 5, 1, 0, 5, 0))))) + ((((81) * mn(p, 0, 1, 5, 0, 4, 2, 3) + (405) * mn(p, 0, 1, 5, 0, 4, 2, 1)) + ((-324) * mn(p, 0, 1, 5, 0, 2, 4, 4) + ((-162) * mn(p, 0, 1, 5, 0, 2, 4, 2) + (-1458) * mn(p, 0, 1, 5, 0, 2, 4, 0)))) + (((243) * mn(p, 0, 1, 5, 0, 0, 6, 5) + (-243) * mn(p, 0, 1, 5, 0, 0, 6, 3)) + ((1458) * mn(p, 0, 1, 5, 0, 0, 6, 1) + ((1701) * mn(p, 0, 0, 6, 5, 1, 0, 2) + (-243) * mn(p, 0, 0, 6, 5, 1, 0, 0)))))) + (((((-972) * mn(p, 0, 0, 6, 4, 1, 1, 3) + (-2673) * mn(p, 0, 0, 6, 4, 1, 1, 1)) + ((243) * mn(p, 0, 0, 6, 3, 1, 2, 4) + ((-4617) * mn(p, 0, 0, 6, 3, 1, 2, 2) + (1458) * mn(p, 0, 0, 6, 3, 1, 2, 0)))) + (((-1701) * mn(p, 0, 0, 6, 2, 3, 1, 2) + (243) * mn(p, 0, 0, 6, 2, 3, 1, 0)) + ((4617) * mn(p, 0, 0, 6, 2, 1, 3, 3) + ((7776) * mn(p, 0, 0, 6, 2, 1, 3, 1) + (972) * mn(p, 0, 0, 6, 1, 3, 2, 3))))) + ((((2673) * mn(p, 0, 0, 6, 1, 3, 2, 1) + (-1701) * mn(p, 0, 0, 6, 1, 1, 4, 4)) + ((-4131) * mn(p, 0, 0, 6, 1, 1, 4, 2) + ((-2187) * mn(p, 0, 0, 6, 1, 1, 4, 0) + (-243) * mn(p, 0, 0, 6, 0, 3, 3, 4)))) + (((-486) * mn(p, 0, 0, 6, 0, 3, 3, 2) + (-729) * mn(p, 0, 0, 6, 0, 3, 3, 0)) + ((243) * mn(p, 0, 0, 6, 0, 1, 5, 5) + ((486) * mn(p, 0, 0, 6, 0, 1, 5, 3) + (729) * mn(p, 0, 0, 6, 0, 1, 5, 1)))))))))));
}

#[verifier::rlimit(100)]
proof fn acc_prod42_c0(p: Pt)
    ensures
        (((((((-27) * mn(p, 2, 4, 0, 2, 1, 0, 0) + (27) * mn(p, 2, 4, 0, 1, 1, 1, 1)) + ((-27) * mn(p, 2, 4, 0, 0, 1, 2, 0) + (-324) * mn(p, 2, 3, 1, 3, 0, 0, 0))) + (((486) * mn(p, 2, 3, 1, 2, 0, 1, 1) + (54) * mn(p, 2, 3, 1, 1, 2, 0, 1)) + ((-162) * mn(p, 2, 3, 1, 1, 0, 2, 2) + (-324) * mn(p, 2, 3, 1, 1, 0, 2, 0)))) + ((((-108) * mn(p, 2, 3, 1, 0, 2, 1, 0) + (162) * mn(p, 2, 3, 1, 0, 0, 3, 1)) + ((729) * mn(p, 2, 2, 2, 2, 1, 0, 1) + (-486) * mn(p, 2, 2, 2, 1, 1, 1, 2))) + (((-972) * mn(p, 2, 2, 2, 1, 1, 1, 0) + (-81) * mn(p, 2, 2, 2, 0, 3, 0, 0)) + ((729) * mn(p, 2, 2, 2, 0, 1, 2, 1) + (2187) * mn(p, 2, 1, 3, 3, 0, 0, 1))))) + (((((-1944) * mn(p, 2, 1, 3, 2, 0, 1, 2) + (-5346) * mn(p, 2, 1, 3, 2, 0, 1, 0)) + ((-162) * mn(p, 2, 1, 3, 1, 2, 0, 2) + (-810) * mn(p, 2, 1, 3, 1, 2, 0, 0))) + (((486) * mn(p, 2, 1, 3, 1, 0, 2, 3) + (4617) * mn(p, 2, 1, 3, 1, 0, 2, 1)) + ((729) * mn(p, 2, 1, 3, 0, 2, 1, 1) + (-1215) * mn(p, 2, 1, 3, 0, 0, 3, 2)))) + ((((486) * mn(p, 2, 1, 3, 0, 0, 3, 0) + (-972) * mn(p, 2, 0, 4, 2, 1, 0, 2)) + ((-2673) * mn(p, 2, 0, 4, 2, 1, 0, 0) + (243) * mn(p, 2, 0, 4, 1, 1, 1, 3))) + (((5589) * mn(p, 2, 0, 4, 1, 1, 1, 1) + (-1701) * mn(p, 2, 0, 4, 0, 1, 2, 2)) + ((243) * mn(p, 2, 0, 4, 0, 1, 2, 0) + (81) * mn(p, 1, 4, 1, 2, 1, 0, 1))))))) * ((((-1) * mn(p, 0, 0, 0, 3, 0, 0, 0) + (3) * mn(p, 0, 0, 0, 1, 0, 2, 0)) + ((1) * mn(p, 0, 0, 0, 0, 2, 1, 0) + (-1) * mn(p, 0, 0, 0, 0, 0, 3, 1)))) == (((((((27) * mn(p, 2, 4, 0, 5, 1, 0, 0) + (-27) * mn(p, 2, 4, 0, 4, 1, 1, 1)) + ((-54) * mn(p, 2, 4, 0, 3, 1, 2, 0) + ((-27) * mn(p, 2, 4, 0, 2, 3, 1, 0) + (108) * mn(p, 2, 4, 0, 2, 1, 3, 1)))) + (((27) * mn(p, 2, 4, 0, 1, 3, 2, 1) + ((-27) * mn(p, 2, 4, 0, 1, 1, 4, 2) + (-81) * mn(p, 2, 4, 0, 1, 1, 4, 0))) + ((-27) * mn(p, 2, 4, 0, 0, 3, 3, 0) + ((27) * mn(p, 2, 4, 0, 0, 1, 5, 1) + (324) * mn(p, 2, 3, 1, 6, 0, 0, 0))))) + ((((-486) * mn(p, 2, 3, 1, 5, 0, 1, 1) + ((-54) * mn(p, 2, 3, 1, 4, 2, 0, 1) + (162) * mn(p, 2, 3, 1, 4, 0, 2, 2))) + ((-648) * mn(p, 2, 3, 1, 4, 0, 2, 0) + ((-216) * mn(p, 2, 3, 1, 3, 2, 1, 0) + (1620) * mn(p, 2, 3, 1, 3, 0, 3, 1)))) + (((648) * mn(p, 2, 3, 1, 2, 2, 2, 1) + ((-972) * mn(p, 2, 3, 1, 2, 0, 4, 2) + (-972) * mn(p, 2, 3, 1, 2, 0, 4, 0))) + ((54) * mn(p, 2, 3, 1, 1, 4, 1, 1) + ((-216) * mn(p, 2, 3, 1, 1, 2, 3, 2) + (-648) * mn(p, 2, 3, 1, 1, 2, 3, 0)))))) + (((((162) * mn(p, 2, 3, 1, 1, 0, 5, 3) + (810) * mn(p, 2, 3, 1, 1, 0, 5, 1)) + ((-108) * mn(p, 2, 3, 1, 0, 4, 2, 0) + ((270) * mn(p, 2, 3, 1, 0, 2, 4, 1) + (-162) * mn(p, 2, 3, 1, 0, 0, 6, 2)))) + (((-729) * mn(p, 2, 2, 2, 5, 1, 0, 1) + ((486) * mn(p, 2, 2, 2, 4, 1, 1, 2) + (972) * mn(p, 2, 2, 2, 4, 1, 1, 0))) + ((81) * mn(p, 2, 2, 2, 3, 3, 0, 0) + ((1458) * mn(p, 2, 2, 2, 3, 1, 2, 1) + (729) * mn(p, 2, 2, 2, 2, 3, 1, 1))))) + ((((-2187) * mn(p, 2, 2, 2, 2, 1, 3, 2) + ((-2916) * mn(p, 2, 2, 2, 2, 1, 3, 0) + (-486) * mn(p, 2, 2, 2, 1, 3, 2, 2))) + ((-1215) * mn(p, 2, 2, 2, 1, 3, 2, 0) + ((486) * mn(p, 2, 2, 2, 1, 1, 4, 3) + (3159) * mn(p, 2, 2, 2, 1, 1, 4, 1)))) + (((-81) * mn(p, 2, 2, 2, 0, 5, 1, 0) + ((810) * mn(p, 2, 2, 2, 0, 3, 3, 1) + (-729) * mn(p, 2, 2, 2, 0, 1, 5, 2))) + ((-2187) * mn(p, 2, 1, 3, 6, 0, 0, 1) + ((1944) * mn(p, 2, 1, 3, 5, 0, 1, 2) + (5346) * mn(p, 2, 1, 3, 5, 0, 1, 0))))))) + ((((((162) * mn(p, 2, 1, 3, 4, 2, 0, 2) + (810) * mn(p, 2, 1, 3, 4, 2, 0, 0)) + ((-486) * mn(p, 2, 1, 3, 4, 0, 2, 3) + ((1944) * mn(p, 2, 1, 3, 4, 0, 2, 1) + (1458) * mn(p, 2, 1, 3, 3, 2, 1, 1)))) + (((-6804) * mn(p, 2, 1, 3, 3, 0, 3, 2) + ((-16524) * mn(p, 2, 1, 3, 3, 0, 3, 0) + (-2430) * mn(p, 2, 1, 3, 2, 2, 2, 2))) + ((-7776) * mn(p, 2, 1, 3, 2, 2, 2, 0) + ((3402) * mn(p, 2, 1, 3, 2, 0, 4, 3) + (19197) * mn(p, 2, 1, 3, 2, 0, 4, 1))))) + ((((-162) * mn(p, 2, 1, 3, 1, 4, 1, 2) + ((-810) * mn(p, 2, 1, 3, 1, 4, 1, 0) + (648) * mn(p, 2, 1, 3, 1, 2, 3, 3))) + ((7614) * mn(p, 2, 1, 3, 1, 2, 3, 1) + ((-486) * mn(p, 2, 1, 3, 1, 0, 5, 4) + (-8262) * mn(p, 2, 1, 3, 1, 0, 5, 2)))) + (((1458) * mn(p, 2, 1, 3, 1, 0, 5, 0) + ((729) * mn(p, 2, 1, 3, 0, 4, 2, 1) + (-1944) * mn(p, 2, 1, 3, 0, 2, 4, 2))) + ((486) * mn(p, 2, 1, 3, 0, 2, 4, 0) + ((1215) * mn(p, 2, 1, 3, 0, 0, 6, 3) + (-486) * mn(p, 2, 1, 3, 0, 0, 6, 1)))))) + (((((972) * mn(p, 2, 0, 4, 5, 1, 0, 2) + (2673) * mn(p, 2, 0, 4, 5, 1, 0, 0)) + ((-243) * mn(p, 2, 0, 4, 4, 1, 1, 3) + ((-5589) * mn(p, 2, 0, 4, 4, 1, 1, 1) + (-1215) * mn(p, 2, 0, 4, 3, 1, 2, 2)))) + (((-8262) * mn(p, 2, 0, 4, 3, 1, 2, 0) + ((-972) * mn(p, 2, 0, 4, 2, 3, 1, 2) + (-2673) * mn(p, 2, 0, 4, 2, 3, 1, 0))) + ((1701) * mn(p, 2, 0, 4, 2, 1, 3, 3) + ((19440) * mn(p, 2, 0, 4, 2, 1, 3, 1) + (243) * mn(p, 2, 0, 4, 1, 3, 2, 3))))) + ((((5589) * mn(p, 2, 0, 4, 1, 3, 2, 1) + ((-243) * mn(p, 2, 0, 4, 1, 1, 4, 4) + (-10692) * mn(p, 2, 0, 4, 1, 1, 4, 2))) + ((729) * mn(p, 2, 0, 4, 1, 1, 4, 0) + ((-1701) * mn(p, 2, 0, 4, 0, 3, 3, 2) + (243) * mn(p, 2, 0, 4, 0, 3, 3, 0)))) + (((1701) * mn(p, 2, 0, 4, 0, 1, 5, 3) + ((-243) * mn(p, 2, 0, 4, 0, 1, 5, 1) + (-81) * mn(p, 1, 4, 1, 5, 1, 0, 1))) + ((243) * mn(p, 1, 4, 1, 3, 1, 2, 1) + ((81) * mn(p, 1, 4, 1, 2, 3, 1, 1) + (-81) * mn(p, 1, 4, 1, 2, 1, 3, 2)))))))),
{
    let t0 = (-27) * mn(p, 2, 4, 0, 2, 1, 0, 0);
    let t1 = (27) * mn(p, 2, 4, 0, 1, 1, 1, 1);
    let t2 = (-27) * mn(p, 2, 4, 0, 0, 1, 2, 0);
    let t3 = (-324) * mn(p, 2, 3, 1, 3, 0, 0, 0);
    let t4 = (486) * mn(p, 2, 3, 1, 2, 0, 1, 1);
    let t5 = (54) * mn(p, 2, 3, 1, 1, 2, 0, 1);
    let t6 = (-162) * mn(p, 2, 3, 1, 1, 0, 2, 2);
    let t7 = (-324) * mn(p, 2, 3, 1, 1, 0, 2, 0);
    let t8 = (-108) * mn(p, 2, 3, 1, 0, 2, 1, 0);
    let t9 = (162) * mn(p, 2, 3, 1, 0, 0, 3, 1);
    let t10 = (729) * mn(p, 2, 2, 2, 2, 1, 0, 1);
    let t11 = (-486) * mn(p, 2, 2, 2, 1, 1, 1, 2);
    let t12 = (-972) * mn(p, 2, 2, 2, 1, 1, 1, 0);
    let t13 = (-81) * mn(p, 2, 2, 2, 0, 3, 0, 0);
    let t14 = (729) * mn(p, 2, 2, 2, 0, 1, 2, 1);
    let t15 = (2187) * mn(p, 2, 1, 3, 3, 0, 0, 1);
    let t16 = (-1944) * mn(p, 2, 1, 3, 2, 0, 1, 2);
    let t17 = (-5346) * mn(p, 2, 1, 3, 2, 0, 1, 0);
    let t18 = (-162) * mn(p, 2, 1, 3, 1, 2, 0, 2);
    let t19 = (-810) * mn(p, 2, 1, 3, 1, 2, 0, 0);
    let t20 = (486) * mn(p, 2, 1, 3, 1, 0, 2, 3);
    let t21 = (4617) * mn(p, 2, 1, 3, 1, 0, 2, 1);
    let t22 = (729) * mn(p, 2, 1, 3, 0, 2, 1, 1);
    let t23 = (-1215) * mn(p, 2, 1, 3, 0, 0, 3, 2);
    let t24 = (486) * mn(p, 2, 1, 3, 0, 0, 3, 0);
    let t25 = (-972) * mn(p, 2, 0, 4, 2, 1, 0, 2);
    let t26 = (-2673) * mn(p, 2, 0, 4, 2, 1, 0, 0);
    let t27 = (243) * mn(p, 2, 0, 4, 1, 1, 1, 3);
    let t28 = (5589) * mn(p, 2, 0, 4, 1, 1, 1, 1);
    let t29 = (-1701) * mn(p, 2, 0, 4, 0, 1, 2, 2);
    let t30 = (243) * mn(p, 2, 0, 4, 0, 1, 2, 0);
    let t31 = (81) * mn(p, 1, 4, 1, 2, 1, 0, 1);
    let s0 = (-1) * mn(p, 0, 0, 0, 3, 0, 0, 0);
    let s1 = (3) * mn(p, 0, 0, 0, 1, 0, 2, 0);
    let s2 = (1) * mn(p, 0, 0, 0, 0, 2, 1, 0);
    let s3 = (-1) * mn(p, 0, 0, 0, 0, 0, 3, 1);
    let pp0 = t0;
    let pp1 = pp0 + t1;
    let pp2 = pp1 + t2;
    let pp3 = pp2 + t3;
    let pp4 = pp3 + t4;
    let pp5 = pp4 + t5;
    let pp6 = pp5 + t6;
    let pp7 = pp6 + t7;
    let pp8 = pp7 + t8;
    let pp9 = pp8 + t9;
    let pp10 = pp9 + t10;
    let pp11 = pp10 + t11;
    let pp12 = pp11 + t12;
    let pp13 = pp12 + t13;
    let pp14 = pp13 + t14;
    let pp15 = pp14 + t15;
    let pp16 = pp15 + t16;
    let pp17 = pp16 + t17;
    let pp18 = pp17 + t18;
    let pp19 = pp18 + t19;
    let pp20 = pp19 + t20;
    let pp21 = pp20 + t21;
    let pp22 = pp21 + t22;
    let pp23 = pp22 + t23;
    let pp24 = pp23 + t24;
    let pp25 = pp24 + t25;
    let pp26 = pp25 + t26;
    let pp27 = pp26 + t27;
    let pp28 = pp27 + t28;
    let pp29 = pp28 + t29;
    let pp30 = pp29 + t30;
    let pp31 = pp30 + t31;
    let qq0 = s0;
    let qq1 = qq0 + s1;
    let qq2 = qq1 + s2;
    let qq3 = qq2 + s3;
    let q = qq3;
    lemma_mul_is_distributive_add_other_way(q, pp0, t1);
    lemma_mul_is_distributive_add_other_way(q, pp1, t2);
    lemma_mul_is_distributive_add_other_way(q, pp2, t3);
    lemma_mul_is_distributive_add_other_way(q, pp3, t4);
    lemma_mul_is_distributive_add_other_way(q, pp4, t5);
    lemma_mul_is_distributive_add_other_way(q, pp5, t6);
    lemma_mul_is_distributive_add_other_way(q, pp6, t7);
    lemma_mul_is_distributive_add_other_way(q, pp7, t8);
    lemma_mul_is_distributive_add_other_way(q, pp8, t9);
    lemma_mul_is_distributive_add_other_way(q, pp9, t10);
    lemma_mul_is_distributive_add_other_way(q, pp10, t11);
    lemma_mul_is_distributive_add_other_way(q, pp11, t12);
    lemma_mul_is_distributive_add_other_way(q, pp12, t13);
    lemma_mul_is_distributive_add_other_way(q, pp13, t14);
    lemma_mul_is_distributive_add_other_way(q, pp14, t15);
    lemma_mul_is_distributive_add_other_way(q, pp15, t16);
    lemma_mul_is_distributive_add_other_way(q, pp16, t17);
    lemma_mul_is_distributive_add_other_way(q, pp17, t18);
    lemma_mul_is_distributive_add_other_way(q, pp18, t19);
    lemma_mul_is_distributive_add_other_way(q, pp19, t20);
    lemma_mul_is_distributive_add_other_way(q, pp20, t21);
    lemma_mul_is_distributive_add_other_way(q, pp21, t22);
    lemma_mul_is_distributive_add_other_way(q, pp22, t23);
    lemma_mul_is_distributive_add_other_way(q, pp23, t24);
    lemma_mul_is_distributive_add_other_way(q, pp24, t25);
    lemma_mul_is_distributive_add_other_way(q, pp25, t26);
    lemma_mul_is_distributive_add_other_way(q, pp26, t27);
    lemma_mul_is_distributive_add_other_way(q, pp27, t28);
    lemma_mul_is_distributive_add_other_way(q, pp28, t29);
    lemma_mul_is_distributive_add_other_way(q, pp29, t30);
    lemma_mul_is_distributive_add_other_way(q, pp30, t31);
    lemma_mul_is_distributive_add(t0, qq0, s1);
    lemma_mul_is_distributive_add(t0, qq1, s2);
    lemma_mul_is_distributive_add(t0, qq2, s3);
    lemma_mul_is_distributive_add(t1, qq0, s1);
    lemma_mul_is_distributive_add(t1, qq1, s2);
    lemma_mul_is_distributive_add(t1, qq2, s3);
    lemma_mul_is_distributive_add(t2, qq0, s1);
    lemma_mul_is_distributive_add(t2, qq1, s2);
    lemma_mul_is_distributive_add(t2, qq2, s3);
    lemma_mul_is_distributive_add(t3, qq0, s1);
    lemma_mul_is_distributive_add(t3, qq1, s2);
    lemma_mul_is_distributive_add(t3, qq2, s3);
    lemma_mul_is_distributive_add(t4, qq0, s1);
    lemma_mul_is_distributive_add(t4, qq1, s2);
    lemma_mul_is_distributive_add(t4, qq2, s3);
    lemma_mul_is_distributive_add(t5, qq0, s1);
    lemma_mul_is_distributive_add(t5, qq1, s2);
    lemma_mul_is_distributive_add(t5, qq2, s3);
    lemma_mul_is_distributive_add(t6, qq0, s1);
    lemma_mul_is_distributive_add(t6, qq1, s2);
    lemma_mul_is_distributive_add(t6, qq2, s3);
    lemma_mul_is_distributive_add(t7, qq0, s1);
    lemma_mul_is_distributive_add(t7, qq1, s2);
    lemma_mul_is_distributive_add(t7, qq2, s3);
    lemma_mul_is_distributive_add(t8, qq0, s1);
    lemma_mul_is_distributive_add(t8, qq1, s2);
    lemma_mul_is_distributive_add(t8, qq2, s3);
    lemma_mul_is_distributive_add(t9, qq0, s1);
    lemma_mul_is_distributive_add(t9, qq1, s2);
    lemma_mul_is_distributive_add(t9, qq2, s3);
    lemma_mul_is_distributive_add(t10, qq0, s1);
    lemma_mul_is_distributive_add(t10, qq1, s2);
    lemma_mul_is_distributive_add(t10, qq2, s3);
    lemma_mul_is_distributive_add(t11, qq0, s1);
    lemma_mul_is_distributive_add(t11, qq1, s2);
    lemma_mul_is_distributive_add(t11, qq2, s3);
    lemma_mul_is_distributive_add(t12, qq0, s1);
    lemma_mul_is_distributive_add(t12, qq1, s2);
    lemma_mul_is_distributive_add(t12, qq2, s3);
    lemma_mul_is_distributive_add(t13, qq0, s1);
    lemma_mul_is_distributive_add(t13, qq1, s2);
    lemma_mul_is_distributive_add(t13, qq2, s3);
    lemma_mul_is_distributive_add(t14, qq0, s1);
    lemma_mul_is_distributive_add(t14, qq1, s2);
    lemma_mul_is_distributive_add(t14, qq2, s3);
    lemma_mul_is_distributive_add(t15, qq0, s1);
    lemma_mul_is_distributive_add(t15, qq1, s2);
    lemma_mul_is_distributive_add(t15, qq2, s3);
    lemma_mul_is_distributive_add(t16, qq0, s1);
    lemma_mul_is_distributive_add(t16, qq1, s2);
    lemma_mul_is_distributive_add(t16, qq2, s3);
    lemma_mul_is_distributive_add(t17, qq0, s1);
    lemma_mul_is_distributive_add(t17, qq1, s2);
    lemma_mul_is_distributive_add(t17, qq2, s3);
    lemma_mul_is_distributive_add(t18, qq0, s1);
    lemma_mul_is_distributive_add(t18, qq1, s2);
    lemma_mul_is_distributive_add(t18, qq2, s3);
    lemma_mul_is_distributive_add(t19, qq0, s1);
    lemma_mul_is_distributive_add(t19, qq1, s2);
    lemma_mul_is_distributive_add(t19, qq2, s3);
    lemma_mul_is_distributive_add(t20, qq0, s1);
    lemma_mul_is_distributive_add(t20, qq1, s2);
    lemma_mul_is_distributive_add(t20, qq2, s3);
    lemma_mul_is_distributive_add(t21, qq0, s1);
    lemma_mul_is_distributive_add(t21, qq1, s2);
    lemma_mul_is_distributive_add(t21, qq2, s3);
    lemma_mul_is_distributive_add(t22, qq0, s1);
    lemma_mul_is_distributive_add(t22, qq1, s2);
    lemma_mul_is_distributive_add(t22, qq2, s3);
    lemma_mul_is_distributive_add(t23, qq0, s1);
    lemma_mul_is_distributive_add(t23, qq1, s2);
    lemma_mul_is_distributive_add(t23, qq2, s3);
    lemma_mul_is_distributive_add(t24, qq0, s1);
    lemma_mul_is_distributive_add(t24, qq1, s2);
    lemma_mul_is_distributive_add(t24, qq2, s3);
    lemma_mul_is_distributive_add(t25, qq0, s1);
    lemma_mul_is_distributive_add(t25, qq1, s2);
    lemma_mul_is_distributive_add(t25, qq2, s3);
    lemma_mul_is_distributive_add(t26, qq0, s1);
    lemma_mul_is_distributive_add(t26, qq1, s2);
    lemma_mul_is_distributive_add(t26, qq2, s3);
    lemma_mul_is_distributive_add(t27, qq0, s1);
    lemma_mul_is_distributive_add(t27, qq1, s2);
    lemma_mul_is_distributive_add(t27, qq2, s3);
    lemma_mul_is_distributive_add(t28, qq0, s1);
    lemma_mul_is_distributive_add(t28, qq1, s2);
    lemma_mul_is_distributive_add(t28, qq2, s3);
    lemma_mul_is_distributive_add(t29, qq0, s1);
    lemma_mul_is_distributive_add(t29, qq1, s2);
    lemma_mul_is_distributive_add(t29, qq2, s3);
    lemma_mul_is_distributive_add(t30, qq0, s1);
    lemma_mul_is_distributive_add(t30, qq1, s2);
    lemma_mul_is_distributive_add(t30, qq2, s3);
    lemma_mul_is_distributive_add(t31, qq0, s1);
    lemma_mul_is_distributive_add(t31, qq1, s2);
    lemma_mul_is_distributive_add(t31, qq2, s3);
    lemma_tm(p, -27, 2, 4, 0, 2, 1, 0, 0, -1, 0, 0, 0, 3, 0, 0, 0);
    assert(t0 * s0 == (27) * mn(p, 2, 4, 0, 5, 1, 0, 0));
    lemma_tm(p, -27, 2, 4, 0, 2, 1, 0, 0, 3, 0, 0, 0, 1, 0, 2, 0);
    assert(t0 * s1 == (-81) * mn(p, 2, 4, 0, 3, 1, 2, 0));
    lemma_tm(p, -27, 2, 4, 0, 2, 1, 0, 0, 1, 0, 0, 0, 0, 2, 1, 0);
    assert(t0 * s2 == (-27) * mn(p, 2, 4, 0, 2, 3, 1, 0));
    lemma_tm(p, -27, 2, 4, 0, 2, 1, 0, 0, -1, 0, 0, 0, 0, 0, 3, 1);
    assert(t0 * s3 == (27) * mn(p, 2, 4, 0, 2, 1, 3, 1));
    assert(t0 * q == (27) * mn(p, 2, 4, 0, 5, 1, 0, 0) + (-81) * mn(p, 2, 4, 0, 3, 1, 2, 0) + (-27) * mn(p, 2, 4, 0, 2, 3, 1, 0) + (27) * mn(p, 2, 4, 0, 2, 1, 3, 1));
    lemma_tm(p, 27, 2, 4, 0, 1, 1, 1, 1, -1, 0, 0, 0, 3, 0, 0, 0);
    assert(t1 * s0 == (-27) * mn(p, 2, 4, 0, 4, 1, 1, 1));
    lemma_tm(p, 27, 2, 4, 0, 1, 1, 1, 1, 3, 0, 0, 0, 1, 0, 2, 0);
    assert(t1 * s1 == (81) * mn(p, 2, 4, 0, 2, 1, 3, 1));
    lemma_tm(p, 27, 2, 4, 0, 1, 1, 1, 1, 1, 0, 0, 0, 0, 2, 1, 0);
    assert(t1 * s2 == (27) * mn(p, 2, 4, 0, 1, 3, 2, 1));
    lemma_tm(p, 27, 2, 4, 0, 1, 1, 1, 1, -1, 0, 0, 0, 0, 0, 3, 1);
    assert(t1 * s3 == (-27) * mn(p, 2, 4, 0, 1, 1, 4, 2));
    assert(t1 * q == (-27) * mn(p, 2, 4, 0, 4, 1, 1, 1) + (81) * mn(p, 2, 4, 0, 2, 1, 3, 1) + (27) * mn(p, 2, 4, 0, 1, 3, 2, 1) + (-27) * mn(p, 2, 4, 0, 1, 1, 4, 2));
    lemma_tm(p, -27, 2, 4, 0, 0, 1, 2, 0, -1, 0, 0, 0, 3, 0, 0, 0);
    assert(t2 * s0 == (27) * mn(p, 2, 4, 0, 3, 1, 2, 0));
    lemma_tm(p, -27, 2, 4, 0, 0, 1, 2, 0, 3, 0, 0, 0, 1, 0, 2, 0);
    assert(t2 * s1 == (-81) * mn(p, 2, 4, 0, 1, 1, 4, 0));
    lemma_tm(p, -27, 2, 4, 0, 0, 1, 2, 0, 1, 0, 0, 0, 0, 2, 1, 0);
    assert(t2 * s2 == (-27) * mn(p, 2, 4, 0, 0, 3, 3, 0));
    lemma_tm(p, -27, 2, 4, 0, 0, 1, 2, 0, -1, 0, 0, 0, 0, 0, 3, 1);
    assert(t2 * s3 == (27) * mn(p, 2, 4, 0, 0, 1, 5, 1));
    assert(t2 * q == (27) * mn(p, 2, 4, 0, 3, 1, 2, 0) + (-81) * mn(p, 2, 4, 0, 1, 1, 4, 0) + (-27) * mn(p, 2, 4, 0, 0, 3, 3, 0) + (27) * mn(p, 2, 4, 0, 0, 1, 5, 1));
    lemma_tm(p, -324, 2, 3, 1, 3, 0, 0, 0, -1, 0, 0, 0, 3, 0, 0, 0);
    assert(t3 * s0 == (324) * mn(p, 2, 3, 1, 6, 0, 0, 0));
    lemma_tm(p, -324, 2, 3, 1, 3, 0, 0, 0, 3, 0, 0, 0, 1, 0, 2, 0);
    assert(t3 * s1 == (-972) * mn(p, 2, 3, 1, 4, 0, 2, 0));
    lemma_tm(p, -324, 2, 3, 1, 3, 0, 0, 0, 1, 0, 0, 0, 0, 2, 1, 0);
    assert(t3 * s2 == (-324) * mn(p, 2, 3, 1, 3, 2, 1, 0));
    lemma_tm(p, -324, 2, 3, 1, 3, 0, 0, 0, -1, 0, 0, 0, 0, 0, 3, 1);
    assert(t3 * s3 == (324) * mn(p, 2, 3, 1, 3, 0, 3, 1));
    assert(t3 * q == (324) * mn(p, 2, 3, 1, 6, 0, 0, 0) + (-972) * mn(p, 2, 3, 1, 4, 0, 2, 0) + (-324) * mn(p, 2, 3, 1, 3, 2, 1, 0) + (324) * mn(p, 2, 3, 1, 3, 0, 3, 1));
    lemma_tm(p, 486, 2, 3, 1, 2, 0, 1, 1, -1, 0, 0, 0, 3, 0, 0, 0);
    assert(t4 * s0 == (-486) * mn(p, 2, 3, 1, 5, 0, 1, 1));
    lemma_tm(p, 486, 2, 3, 1, 2, 0, 1, 1, 3, 0, 0, 0, 1, 0, 2, 0);
    assert(t4 * s1 == (1458) * mn(p, 2, 3, 1, 3, 0, 3, 1));
    lemma_tm(p, 486, 2, 3, 1, 2, 0, 1, 1, 1, 0, 0, 0, 0, 2, 1, 0);
    assert(t4 * s2 == (486) * mn(p, 2, 3, 1, 2, 2, 2, 1));
    lemma_tm(p, 486, 2, 3, 1, 2, 0, 1, 1, -1, 0, 0, 0, 0, 0, 3, 1);
    assert(t4 * s3 == (-486) * mn(p, 2, 3, 1, 2, 0, 4, 2));
    assert(t4 * q == (-486) * mn(p, 2, 3, 1, 5, 0, 1, 1) + (1458) * mn(p, 2, 3, 1, 3, 0, 3, 1) + (486) * mn(p, 2, 3, 1, 2, 2, 2, 1) + (-486) * mn(p, 2, 3, 1, 2, 0, 4, 2));
    lemma_tm(p, 54, 2, 3, 1, 1, 2, 0, 1, -1, 0, 0, 0, 3, 0, 0, 0);
    assert(t5 * s0 == (-54) * mn(p, 2, 3, 1, 4, 2, 0, 1));
    lemma_tm(p, 54, 2, 3, 1, 1, 2, 0, 1, 3, 0, 0, 0, 1, 0, 2, 0);
    assert(t5 * s1 == (162) * mn(p, 2, 3, 1, 2, 2, 2, 1));
    lemma_tm(p, 54, 2, 3, 1, 1, 2, 0, 1, 1, 0, 0, 0, 0, 2, 1, 0);
    assert(t5 * s2 == (54) * mn(p, 2, 3, 1, 1, 4, 1, 1));
    lemma_tm(p, 54, 2, 3, 1, 1, 2, 0, 1, -1, 0, 0, 0, 0, 0, 3, 1);
    assert(t5 * s3 == (-54) * mn(p, 2, 3, 1, 1, 2, 3, 2));
    assert(t5 * q == (-54) * mn(p, 2, 3, 1, 4, 2, 0, 1) + (162) * mn(p, 2, 3, 1, 2, 2, 2, 1) + (54) * mn(p, 2, 3, 1, 1, 4, 1, 1) + (-54) * mn(p, 2, 3, 1, 1, 2, 3, 2));
    lemma_tm(p, -162, 2, 3, 1, 1, 0, 2, 2, -1, 0, 0, 0, 3, 0, 0, 0);
    assert(t6 * s0 == (162) * mn(p, 2, 3, 1, 4, 0, 2, 2));
    lemma_tm(p, -162, 2, 3, 1, 1, 0, 2, 2, 3, 0, 0, 0, 1, 0, 2, 0);
    assert(t6 * s1 == (-486) * mn(p, 2, 3, 1, 2, 0, 4, 2));
    lemma_tm(p, -162, 2, 3, 1, 1, 0, 2, 2, 1, 0, 0, 0, 0, 2, 1, 0);
    assert(t6 * s2 == (-162) * mn(p, 2, 3, 1, 1, 2, 3, 2));
    lemma_tm(p, -162, 2, 3, 1, 1, 0, 2, 2, -1, 0, 0, 0, 0, 0, 3, 1);
    assert(t6 * s3 == (162) * mn(p, 2, 3, 1, 1, 0, 5, 3));
    assert(t6 * q == (162) * mn(p, 2, 3, 1, 4, 0, 2, 2) + (-486) * mn(p, 2, 3, 1, 2, 0, 4, 2) + (-162) * mn(p, 2, 3, 1, 1, 2, 3, 2) + (162) * mn(p, 2, 3, 1, 1, 0, 5, 3));
    lemma_tm(p, -324, 2, 3, 1, 1, 0, 2, 0, -1, 0, 0, 0, 3, 0, 0, 0);
    assert(t7 * s0 == (324) * mn(p, 2, 3, 1, 4, 0, 2, 0));
    lemma_tm(p, -324, 2, 3, 1, 1, 0, 2, 0, 3, 0, 0, 0, 1, 0, 2, 0);
    assert(t7 * s1 == (-972) * mn(p, 2, 3, 1, 2, 0, 4, 0));
    lemma_tm(p, -324, 2, 3, 1, 1, 0, 2, 0, 1, 0, 0, 0, 0, 2, 1, 0);
    assert(t7 * s2 == (-324) * mn(p, 2, 3, 1, 1, 2, 3, 0));
    lemma_tm(p, -324, 2, 3, 1, 1, 0, 2, 0, -1, 0, 0, 0, 0, 0, 3, 1);
    assert(t7 * s3 == (324) * mn(p, 2, 3, 1, 1, 0, 5, 1));
    assert(t7 * q == (324) * mn(p, 2, 3, 1, 4, 0, 2, 0) + (-972) * mn(p, 2, 3, 1, 2, 0, 4, 0) + (-324) * mn(p, 2, 3, 1, 1, 2, 3, 0) + (324) * mn(p, 2, 3, 1, 1, 0, 5, 1));
    lemma_tm(p, -108, 2, 3, 1, 0, 2, 1, 0, -1, 0, 0, 0, 3, 0, 0, 0);
    assert(t8 * s0 == (108) * mn(p, 2, 3, 1, 3, 2, 1, 0));
    lemma_tm(p, -108, 2, 3, 1, 0, 2, 1, 0, 3, 0, 0, 0, 1, 0, 2, 0);
    assert(t8 * s1 == (-324) * mn(p, 2, 3, 1, 1, 2, 3, 0));
    lemma_tm(p, -108, 2, 3, 1, 0, 2, 1, 0, 1, 0, 0, 0, 0, 2, 1, 0);
    assert(t8 * s2 == (-108) * mn(p, 2, 3, 1, 0, 4, 2, 0));
    lemma_tm(p, -108, 2, 3, 1, 0, 2, 1, 0, -1, 0, 0, 0, 0, 0, 3, 1);
    assert(t8 * s3 == (108) * mn(p, 2, 3, 1, 0, 2, 4, 1));
    assert(t8 * q == (108) * mn(p, 2, 3, 1, 3, 2, 1, 0) + (-324) * mn(p, 2, 3, 1, 1, 2, 3, 0) + (-108) * mn(p, 2, 3, 1, 0, 4, 2, 0) + (108) * mn(p, 2, 3, 1, 0, 2, 4, 1));
    lemma_tm(p, 162, 2, 3, 1, 0, 0, 3, 1, -1, 0, 0, 0, 3, 0, 0, 0);
    assert(t9 * s0 == (-162) * mn(p, 2, 3, 1, 3, 0, 3, 1));
    lemma_tm(p, 162, 2, 3, 1, 0, 0, 3, 1, 3, 0, 0, 0, 1, 0, 2, 0);
    assert(t9 * s1 == (486) * mn(p, 2, 3, 1, 1, 0, 5, 1));
    lemma_tm(p, 162, 2, 3, 1, 0, 0, 3, 1, 1, 0, 0, 0, 0, 2, 1, 0);
    assert(t9 * s2 == (162) * mn(p, 2, 3, 1, 0, 2, 4, 1));
    lemma_tm(p, 162, 2, 3, 1, 0, 0, 3, 1, -1, 0, 0, 0, 0, 0, 3, 1);
    assert(t9 * s3 == (-162) * mn(p, 2, 3, 1, 0, 0, 6, 2));
    assert(t9 * q == (-162) * mn(p, 2, 3, 1, 3, 0, 3, 1) + (486) * mn(p, 2, 3, 1, 1, 0, 5, 1) + (162) * mn(p, 2, 3, 1, 0, 2, 4, 1) + (-162) * mn(p, 2, 3, 1, 0, 0, 6, 2));
    lemma_tm(p, 729, 2, 2, 2, 2, 1, 0, 1, -1, 0, 0, 0, 3, 0, 0, 0);
    assert(t10 * s0 == (-729) * mn(p, 2, 2, 2, 5, 1, 0, 1));
    lemma_tm(p, 729, 2, 2, 2, 2, 1, 0, 1, 3, 0, 0, 0, 1, 0, 2, 0);
    assert(t10 * s1 == (2187) * mn(p, 2, 2, 2, 3, 1, 2, 1));
    lemma_tm(p, 729, 2, 2, 2, 2, 1, 0, 1, 1, 0, 0, 0, 0, 2, 1, 0);
    assert(t10 * s2 == (729) * mn(p, 2, 2, 2, 2, 3, 1, 1));
    lemma_tm(p, 729, 2, 2, 2, 2, 1, 0, 1, -1, 0, 0, 0, 0, 0, 3, 1);
    assert(t10 * s3 == (-729) * mn(p, 2, 2, 2, 2, 1, 3, 2));
    assert(t10 * q == (-729) * mn(p, 2, 2, 2, 5, 1, 0, 1) + (2187) * mn(p, 2, 2, 2, 3, 1, 2, 1) + (729) * mn(p, 2, 2, 2, 2, 3, 1, 1) + (-729) * mn(p, 2, 2, 2, 2, 1, 3, 2));
    lemma_tm(p, -486, 2, 2, 2, 1, 1, 1, 2, -1, 0, 0, 0, 3, 0, 0, 0);
    assert(t11 * s0 == (486) * mn(p, 2, 2, 2, 4, 1, 1, 2));
    lemma_tm(p, -486, 2, 2, 2, 1, 1, 1, 2, 3, 0, 0, 0, 1, 0, 2, 0);
    assert(t11 * s1 == (-1458) * mn(p, 2, 2, 2, 2, 1, 3, 2));
    lemma_tm(p, -486, 2, 2, 2, 1, 1, 1, 2, 1, 0, 0, 0, 0, 2, 1, 0);
    assert(t11 * s2 == (-486) * mn(p, 2, 2, 2, 1, 3, 2, 2));
    lemma_tm(p, -486, 2, 2, 2, 1, 1, 1, 2, -1, 0, 0, 0, 0, 0, 3, 1);
    assert(t11 * s3 == (486) * mn(p, 2, 2, 2, 1, 1, 4, 3));
    assert(t11 * q == (486) * mn(p, 2, 2, 2, 4, 1, 1, 2) + (-1458) * mn(p, 2, 2, 2, 2, 1, 3, 2) + (-486) * mn(p, 2, 2, 2, 1, 3, 2, 2) + (486) * mn(p, 2, 2, 2, 1, 1, 4, 3));
    lemma_tm(p, -972, 2, 2, 2, 1, 1, 1, 0, -1, 0, 0, 0, 3, 0, 0, 0);
    assert(t12 * s0 == (972) * mn(p, 2, 2, 2, 4, 1, 1, 0));
    lemma_tm(p, -972, 2, 2, 2, 1, 1, 1, 0, 3, 0, 0, 0, 1, 0, 2, 0);
    assert(t12 * s1 == (-2916) * mn(p, 2, 2, 2, 2, 1, 3, 0));
    lemma_tm(p, -972, 2, 2, 2, 1, 1, 1, 0, 1, 0, 0, 0, 0, 2, 1, 0);
    assert(t12 * s2 == (-972) * mn(p, 2, 2, 2, 1, 3, 2, 0));
    lemma_tm(p, -972, 2, 2, 2, 1, 1, 1, 0, -1, 0, 0, 0, 0, 0, 3, 1);
    assert(t12 * s3 == (972) * mn(p, 2, 2, 2, 1, 1, 4, 1));
    assert(t12 * q == (972) * mn(p, 2, 2, 2, 4, 1, 1, 0) + (-2916) * mn(p, 2, 2, 2, 2, 1, 3, 0) + (-972) * mn(p, 2, 2, 2, 1, 3, 2, 0) + (972) * mn(p, 2, 2, 2, 1, 1, 4, 1));
    lemma_tm(p, -81, 2, 2, 2, 0, 3, 0, 0, -1, 0, 0, 0, 3, 0, 0, 0);
    assert(t13 * s0 == (81) * mn(p, 2, 2, 2, 3, 3, 0, 0));
    lemma_tm(p, -81, 2, 2, 2, 0, 3, 0, 0, 3, 0, 0, 0, 1, 0, 2, 0);
    assert(t13 * s1 == (-243) * mn(p, 2, 2, 2, 1, 3, 2, 0));
    lemma_tm(p, -81, 2, 2, 2, 0, 3, 0, 0, 1, 0, 0, 0, 0, 2, 1, 0);
    assert(t13 * s2 == (-81) * mn(p, 2, 2, 2, 0, 5, 1, 0));
    lemma_tm(p, -81, 2, 2, 2, 0, 3, 0, 0, -1, 0, 0, 0, 0, 0, 3, 1);
    assert(t13 * s3 == (81) * mn(p, 2, 2, 2, 0, 3, 3, 1));
    assert(t13 * q == (81) * mn(p, 2, 2, 2, 3, 3, 0, 0) + (-243) * mn(p, 2, 2, 2, 1, 3, 2, 0) + (-81) * mn(p, 2, 2, 2, 0, 5, 1, 0) + (81) * mn(p, 2, 2, 2, 0, 3, 3, 1));
    lemma_tm(p, 729, 2, 2, 2, 0, 1, 2, 1, -1, 0, 0, 0, 3, 0, 0, 0);
    assert(t14 * s0 == (-729) * mn(p, 2, 2, 2, 3, 1, 2, 1));
    lemma_tm(p, 729, 2, 2, 2, 0, 1, 2, 1, 3, 0, 0, 0, 1, 0, 2, 0);
    assert(t14 * s1 == (2187) * mn(p, 2, 2, 2, 1, 1, 4, 1));
    lemma_tm(p, 729, 2, 2, 2, 0, 1, 2, 1, 1, 0, 0, 0, 0, 2, 1, 0);
    assert(t14 * s2 == (729) * mn(p, 2, 2, 2, 0, 3, 3, 1));
    lemma_tm(p, 729, 2, 2, 2, 0, 1, 2, 1, -1, 0, 0, 0, 0, 0, 3, 1);
    assert(t14 * s3 == (-729) * mn(p, 2, 2, 2, 0, 1, 5, 2));
    assert(t14 * q == (-729) * mn(p, 2, 2, 2, 3, 1, 2, 1) + (2187) * mn(p, 2, 2, 2, 1, 1, 4, 1) + (729) * mn(p, 2, 2, 2, 0, 3, 3, 1) + (-729) * mn(p, 2, 2, 2, 0, 1, 5, 2));
    lemma_tm(p, 2187, 2, 1, 3, 3, 0, 0, 1, -1, 0, 0, 0, 3, 0, 0, 0);
    assert(t15 * s0 == (-2187) * mn(p, 2, 1, 3, 6, 0, 0, 1));
    lemma_tm(p, 2187, 2, 1, 3, 3, 0, 0, 1, 3, 0, 0, 0, 1, 0, 2, 0);
    assert(t15 * s1 == (6561) * mn(p, 2, 1, 3, 4, 0, 2, 1));
    lemma_tm(p, 2187, 2, 1, 3, 3, 0, 0, 1, 1, 0, 0, 0, 0, 2, 1, 0);
    assert(t15 * s2 == (2187) * mn(p, 2, 1, 3, 3, 2, 1, 1));
    lemma_tm(p, 2187, 2, 1, 3, 3, 0, 0, 1, -1, 0, 0, 0, 0, 0, 3, 1);
    assert(t15 * s3 == (-2187) * mn(p, 2, 1, 3, 3, 0, 3, 2));
    assert(t15 * q == (-2187) * mn(p, 2, 1, 3, 6, 0, 0, 1) + (6561) * mn(p, 2, 1, 3, 4, 0, 2, 1) + (2187) * mn(p, 2, 1, 3, 3, 2, 1, 1) + (-2187) * mn(p, 2, 1, 3, 3, 0, 3, 2));
    lemma_tm(p, -1944, 2, 1, 3, 2, 0, 1, 2, -1, 0, 0, 0, 3, 0, 0, 0);
    assert(t16 * s0 == (1944) * mn(p, 2, 1, 3, 5, 0, 1, 2));
    lemma_tm(p, -1944, 2, 1, 3, 2, 0, 1, 2, 3, 0, 0, 0, 1, 0, 2, 0);
    assert(t16 * s1 == (-5832) * mn(p, 2, 1, 3, 3, 0, 3, 2));
    lemma_tm(p, -1944, 2, 1, 3, 2, 0, 1, 2, 1, 0, 0, 0, 0, 2, 1, 0);
    assert(t16 * s2 == (-1944) * mn(p, 2, 1, 3, 2, 2, 2, 2));
    lemma_tm(p, -1944, 2, 1, 3, 2, 0, 1, 2, -1, 0, 0, 0, 0, 0, 3, 1);
    assert(t16 * s3 == (1944) * mn(p, 2, 1, 3, 2, 0, 4, 3));
    assert(t16 * q == (1944) * mn(p, 2, 1, 3, 5, 0, 1, 2) + (-5832) * mn(p, 2, 1, 3, 3, 0, 3, 2) + (-1944) * mn(p, 2, 1, 3, 2, 2, 2, 2) + (1944) * mn(p, 2, 1, 3, 2, 0, 4, 3));
    lemma_tm(p, -5346, 2, 1, 3, 2, 0, 1, 0, -1, 0, 0, 0, 3, 0, 0, 0);
    assert(t17 * s0 == (5346) * mn(p, 2, 1, 3, 5, 0, 1, 0));
    lemma_tm(p, -5346, 2, 1, 3, 2, 0, 1, 0, 3, 0, 0, 0, 1, 0, 2, 0);
    assert(t17 * s1 == (-16038) * mn(p, 2, 1, 3, 3, 0, 3, 0));
    lemma_tm(p, -5346, 2, 1, 3, 2, 0, 1, 0, 1, 0, 0, 0, 0, 2, 1, 0);
    assert(t17 * s2 == (-5346) * mn(p, 2, 1, 3, 2, 2, 2, 0));
    lemma_tm(p, -5346, 2, 1, 3, 2, 0, 1, 0, -1, 0, 0, 0, 0, 0, 3, 1);
    assert(t17 * s3 == (5346) * mn(p, 2, 1, 3, 2, 0, 4, 1));
    assert(t17 * q == (5346) * mn(p, 2, 1, 3, 5, 0, 1, 0) + (-16038) * mn(p, 2, 1, 3, 3, 0, 3, 0) + (-5346) * mn(p, 2, 1, 3, 2, 2, 2, 0) + (5346) * mn(p, 2, 1, 3, 2, 0, 4, 1));
    lemma_tm(p, -162, 2, 1, 3, 1, 2, 0, 2, -1, 0, 0, 0, 3, 0, 0, 0);
    assert(t18 * s0 == (162) * mn(p, 2, 1, 3, 4, 2, 0, 2));
    lemma_tm(p, -162, 2, 1, 3, 1, 2, 0, 2, 3, 0, 0, 0, 1, 0, 2, 0);
    assert(t18 * s1 == (-486) * mn(p, 2, 1, 3, 2, 2, 2, 2));
    lemma_tm(p, -162, 2, 1, 3, 1, 2, 0, 2, 1, 0, 0, 0, 0, 2, 1, 0);
    assert(t18 * s2 == (-162) * mn(p, 2, 1, 3, 1, 4, 1, 2));
    lemma_tm(p, -162, 2, 1, 3, 1, 2, 0, 2, -1, 0, 0, 0, 0, 0, 3, 1);
    assert(t18 * s3 == (162) * mn(p, 2, 1, 3, 1, 2, 3, 3));
    assert(t18 * q == (162) * mn(p, 2, 1, 3, 4, 2, 0, 2) + (-486) * mn(p, 2, 1, 3, 2, 2, 2, 2) + (-162) * mn(p, 2, 1, 3, 1, 4, 1, 2) + (162) * mn(p, 2, 1, 3, 1, 2, 3, 3));
    lemma_tm(p, -810, 2, 1, 3, 1, 2, 0, 0, -1, 0, 0, 0, 3, 0, 0, 0);
    assert(t19 * s0 == (810) * mn(p, 2, 1, 3, 4, 2, 0, 0));
    lemma_tm(p, -810, 2, 1, 3, 1, 2, 0, 0, 3, 0, 0, 0, 1, 0, 2, 0);
    assert(t19 * s1 == (-2430) * mn(p, 2, 1, 3, 2, 2, 2, 0));
    lemma_tm(p, -810, 2, 1, 3, 1, 2, 0, 0, 1, 0, 0, 0, 0, 2, 1, 0);
    assert(t19 * s2 == (-810) * mn(p, 2, 1, 3, 1, 4, 1, 0));
    lemma_tm(p, -810, 2, 1, 3, 1, 2, 0, 0, -1, 0, 0, 0, 0, 0, 3, 1);
    assert(t19 * s3 == (810) * mn(p, 2, 1, 3, 1, 2, 3, 1));
    assert(t19 * q == (810) * mn(p, 2, 1, 3, 4, 2, 0, 0) + (-2430) * mn(p, 2, 1, 3, 2, 2, 2, 0) + (-810) * mn(p, 2, 1, 3, 1, 4, 1, 0) + (810) * mn(p, 2, 1, 3, 1, 2, 3, 1));
    lemma_tm(p, 486, 2, 1, 3, 1, 0, 2, 3, -1, 0, 0, 0, 3, 0, 0, 0);
    assert(t20 * s0 == (-486) * mn(p, 2, 1, 3, 4, 0, 2, 3));
    lemma_tm(p, 486, 2, 1, 3, 1, 0, 2, 3, 3, 0, 0, 0, 1, 0, 2, 0);
    assert(t20 * s1 == (1458) * mn(p, 2, 1, 3, 2, 0, 4, 3));
    lemma_tm(p, 486, 2, 1, 3, 1, 0, 2, 3, 1, 0, 0, 0, 0, 2, 1, 0);
    assert(t20 * s2 == (486) * mn(p, 2, 1, 3, 1, 2, 3, 3));
    lemma_tm(p, 486, 2, 1, 3, 1, 0, 2, 3, -1, 0, 0, 0, 0, 0, 3, 1);
    assert(t20 * s3 == (-486) * mn(p, 2, 1, 3, 1, 0, 5, 4));
    assert(t20 * q == (-486) * mn(p, 2, 1, 3, 4, 0, 2, 3) + (1458) * mn(p, 2, 1, 3, 2, 0, 4, 3) + (486) * mn(p, 2, 1, 3, 1, 2, 3, 3) + (-486) * mn(p, 2, 1, 3, 1, 0, 5, 4));
    lemma_tm(p, 4617, 2, 1, 3, 1, 0, 2, 1, -1, 0, 0, 0, 3, 0, 0, 0);
    assert(t21 * s0 == (-4617) * mn(p, 2, 1, 3, 4, 0, 2, 1));
    lemma_tm(p, 4617, 2, 1, 3, 1, 0, 2, 1, 3, 0, 0, 0, 1, 0, 2, 0);
    assert(t21 * s1 == (13851) * mn(p, 2, 1, 3, 2, 0, 4, 1));
    lemma_tm(p, 4617, 2, 1, 3, 1, 0, 2, 1, 1, 0, 0, 0, 0, 2, 1, 0);
    assert(t21 * s2 == (4617) * mn(p, 2, 1, 3, 1, 2, 3, 1));
    lemma_tm(p, 4617, 2, 1, 3, 1, 0, 2, 1, -1, 0, 0, 0, 0, 0, 3, 1);
    assert(t21 * s3 == (-4617) * mn(p, 2, 1, 3, 1, 0, 5, 2));
    assert(t21 * q == (-4617) * mn(p, 2, 1, 3, 4, 0, 2, 1) + (13851) * mn(p, 2, 1, 3, 2, 0, 4, 1) + (4617) * mn(p, 2, 1, 3, 1, 2, 3, 1) + (-4617) * mn(p, 2, 1, 3, 1, 0, 5, 2));
    lemma_tm(p, 729, 2, 1, 3, 0, 2, 1, 1, -1, 0, 0, 0, 3, 0, 0, 0);
    assert(t22 * s0 == (-729) * mn(p, 2, 1, 3, 3, 2, 1, 1));
    lemma_tm(p, 729, 2, 1, 3, 0, 2, 1, 1, 3, 0, 0, 0, 1, 0, 2, 0);
    assert(t22 * s1 == (2187) * mn(p, 2, 1, 3, 1, 2, 3, 1));
    lemma_tm(p, 729, 2, 1, 3, 0, 2, 1, 1, 1, 0, 0, 0, 0, 2, 1, 0);
    assert(t22 * s2 == (729) * mn(p, 2, 1, 3, 0, 4, 2, 1));
    lemma_tm(p, 729, 2, 1, 3, 0, 2, 1, 1, -1, 0, 0, 0, 0, 0, 3, 1);
    assert(t22 * s3 == (-729) * mn(p, 2, 1, 3, 0, 2, 4, 2));
    assert(t22 * q == (-729) * mn(p, 2, 1, 3, 3, 2, 1, 1) + (2187) * mn(p, 2, 1, 3, 1, 2, 3, 1) + (729) * mn(p, 2, 1, 3, 0, 4, 2, 1) + (-729) * mn(p, 2, 1, 3, 0, 2, 4, 2));
    lemma_tm(p, -1215, 2, 1, 3, 0, 0, 3, 2, -1, 0, 0, 0, 3, 0, 0, 0);
    assert(t23 * s0 == (1215) * mn(p, 2, 1, 3, 3, 0, 3, 2));
    lemma_tm(p, -1215, 2, 1, 3, 0, 0, 3, 2, 3, 0, 0, 0, 1, 0, 2, 0);
    assert(t23 * s1 == (-3645) * mn(p, 2, 1, 3, 1, 0, 5, 2));
    lemma_tm(p, -1215, 2, 1, 3, 0, 0, 3, 2, 1, 0, 0, 0, 0, 2, 1, 0);
    assert(t23 * s2 == (-1215) * mn(p, 2, 1, 3, 0, 2, 4, 2));
    lemma_tm(p, -1215, 2, 1, 3, 0, 0, 3, 2, -1, 0, 0, 0, 0, 0, 3, 1);
    assert(t23 * s3 == (1215) * mn(p, 2, 1, 3, 0, 0, 6, 3));
    assert(t23 * q == (1215) * mn(p, 2, 1, 3, 3, 0, 3, 2) + (-3645) * mn(p, 2, 1, 3, 1, 0, 5, 2) + (-1215) * mn(p, 2, 1, 3, 0, 2, 4, 2) + (1215) * mn(p, 2, 1, 3, 0, 0, 6, 3));
    lemma_tm(p, 486, 2, 1, 3, 0, 0, 3, 0, -1, 0, 0, 0, 3, 0, 0, 0);
    assert(t24 * s0 == (-486) * mn(p, 2, 1, 3, 3, 0, 3, 0));
    lemma_tm(p, 486, 2, 1, 3, 0, 0, 3, 0, 3, 0, 0, 0, 1, 0, 2, 0);
    assert(t24 * s1 == (1458) * mn(p, 2, 1, 3, 1, 0, 5, 0));
    lemma_tm(p, 486, 2, 1, 3, 0, 0, 3, 0, 1, 0, 0, 0, 0, 2, 1, 0);
    assert(t24 * s2 == (486) * mn(p, 2, 1, 3, 0, 2, 4, 0));
    lemma_tm(p, 486, 2, 1, 3, 0, 0, 3, 0, -1, 0, 0, 0, 0, 0, 3, 1);
    assert(t24 * s3 == (-486) * mn(p, 2, 1, 3, 0, 0, 6, 1));
    assert(t24 * q == (-486) * mn(p, 2, 1, 3, 3, 0, 3, 0) + (1458) * mn(p, 2, 1, 3, 1, 0, 5, 0) + (486) * mn(p, 2, 1, 3, 0, 2, 4, 0) + (-486) * mn(p, 2, 1, 3, 0, 0, 6, 1));
    lemma_tm(p, -972, 2, 0, 4, 2, 1, 0, 2, -1, 0, 0, 0, 3, 0, 0, 0);
    assert(t25 * s0 == (972) * mn(p, 2, 0, 4, 5, 1, 0, 2));
    lemma_tm(p, -972, 2, 0, 4, 2, 1, 0, 2, 3, 0, 0, 0, 1, 0, 2, 0);
    assert(t25 * s1 == (-2916) * mn(p, 2, 0, 4, 3, 1, 2, 2));
    lemma_tm(p, -972, 2, 0, 4, 2, 1, 0, 2, 1, 0, 0, 0, 0, 2, 1, 0);
    assert(t25 * s2 == (-972) * mn(p, 2, 0, 4, 2, 3, 1, 2));
    lemma_tm(p, -972, 2, 0, 4, 2, 1, 0, 2, -1, 0, 0, 0, 0, 0, 3, 1);
    assert(t25 * s3 == (972) * mn(p, 2, 0, 4, 2, 1, 3, 3));
    assert(t25 * q == (972) * mn(p, 2, 0, 4, 5, 1, 0, 2) + (-2916) * mn(p, 2, 0, 4, 3, 1, 2, 2) + (-972) * mn(p, 2, 0, 4, 2, 3, 1, 2) + (972) * mn(p, 2, 0, 4, 2, 1, 3, 3));
    lemma_tm(p, -2673, 2, 0, 4, 2, 1, 0, 0, -1, 0, 0, 0, 3, 0, 0, 0);
    assert(t26 * s0 == (2673) * mn(p, 2, 0, 4, 5, 1, 0, 0));
    lemma_tm(p, -2673, 2, 0, 4, 2, 1, 0, 0, 3, 0, 0, 0, 1, 0, 2, 0);
    assert(t26 * s1 == (-8019) * mn(p, 2, 0, 4, 3, 1, 2, 0));
    lemma_tm(p, -2673, 2, 0, 4, 2, 1, 0, 0, 1, 0, 0, 0, 0, 2, 1, 0);
    assert(t26 * s2 == (-2673) * mn(p, 2, 0, 4, 2, 3, 1, 0));
    lemma_tm(p, -2673, 2, 0, 4, 2, 1, 0, 0, -1, 0, 0, 0, 0, 0, 3, 1);
    assert(t26 * s3 == (2673) * mn(p, 2, 0, 4, 2, 1, 3, 1));
    assert(t26 * q == (2673) * mn(p, 2, 0, 4, 5, 1, 0, 0) + (-8019) * mn(p, 2, 0, 4, 3, 1, 2, 0) + (-2673) * mn(p, 2, 0, 4, 2, 3, 1, 0) + (2673) * mn(p, 2, 0, 4, 2, 1, 3, 1));
    lemma_tm(p, 243, 2, 0, 4, 1, 1, 1, 3, -1, 0, 0, 0, 3, 0, 0, 0);
    assert(t27 * s0 == (-243) * mn(p, 2, 0, 4, 4, 1, 1, 3));
    lemma_tm(p, 243, 2, 0, 4, 1, 1, 1, 3, 3, 0, 0, 0, 1, 0, 2, 0);
    assert(t27 * s1 == (729) * mn(p, 2, 0, 4, 2, 1, 3, 3));
    lemma_tm(p, 243, 2, 0, 4, 1, 1, 1, 3, 1, 0, 0, 0, 0, 2, 1, 0);
    assert(t27 * s2 == (243) * mn(p, 2, 0, 4, 1, 3, 2, 3));
    lemma_tm(p, 243, 2, 0, 4, 1, 1, 1, 3, -1, 0, 0, 0, 0, 0, 3, 1);
    assert(t27 * s3 == (-243) * mn(p, 2, 0, 4, 1, 1, 4, 4));
    assert(t27 * q == (-243) * mn(p, 2, 0, 4, 4, 1, 1, 3) + (729) * mn(p, 2, 0, 4, 2, 1, 3, 3) + (243) * mn(p, 2, 0, 4, 1, 3, 2, 3) + (-243) * mn(p, 2, 0, 4, 1, 1, 4, 4));
    lemma_tm(p, 5589, 2, 0, 4, 1, 1, 1, 1, -1, 0, 0, 0, 3, 0, 0, 0);
    assert(t28 * s0 == (-5589) * mn(p, 2, 0, 4, 4, 1, 1, 1));
    lemma_tm(p, 5589, 2, 0, 4, 1, 1, 1, 1, 3, 0, 0, 0, 1, 0, 2, 0);
    assert(t28 * s1 == (16767) * mn(p, 2, 0, 4, 2, 1, 3, 1));
    lemma_tm(p, 5589, 2, 0, 4, 1, 1, 1, 1, 1, 0, 0, 0, 0, 2, 1, 0);
    assert(t28 * s2 == (5589) * mn(p, 2, 0, 4, 1, 3, 2, 1));
    lemma_tm(p, 5589, 2, 0, 4, 1, 1, 1, 1, -1, 0, 0, 0, 0, 0, 3, 1);
    assert(t28 * s3 == (-5589) * mn(p, 2, 0, 4, 1, 1, 4, 2));
    assert(t28 * q == (-5589) * mn(p, 2, 0, 4, 4, 1, 1, 1) + (16767) * mn(p, 2, 0, 4, 2, 1, 3, 1) + (5589) * mn(p, 2, 0, 4, 1, 3, 2, 1) + (-5589) * mn(p, 2, 0, 4, 1, 1, 4, 2));
    lemma_tm(p, -1701, 2, 0, 4, 0, 1, 2, 2, -1, 0, 0, 0, 3, 0, 0, 0);
    assert(t29 * s0 == (1701) * mn(p, 2, 0, 4, 3, 1, 2, 2));
    lemma_tm(p, -1701, 2, 0, 4, 0, 1, 2, 2, 3, 0, 0, 0, 1, 0, 2, 0);
    assert(t29 * s1 == (-5103) * mn(p, 2, 0, 4, 1, 1, 4, 2));
    lemma_tm(p, -1701, 2, 0, 4, 0, 1, 2, 2, 1, 0, 0, 0, 0, 2, 1, 0);
    assert(t29 * s2 == (-1701) * mn(p, 2, 0, 4, 0, 3, 3, 2));
    lemma_tm(p, -1701, 2, 0, 4, 0, 1, 2, 2, -1, 0, 0, 0, 0, 0, 3, 1);
    assert(t29 * s3 == (1701) * mn(p, 2, 0, 4, 0, 1, 5, 3));
    assert(t29 * q == (1701) * mn(p, 2, 0, 4, 3, 1, 2, 2) + (-5103) * mn(p, 2, 0, 4, 1, 1, 4, 2) + (-1701) * mn(p, 2, 0, 4, 0, 3, 3, 2) + (1701) * mn(p, 2, 0, 4, 0, 1, 5, 3));
    lemma_tm(p, 243, 2, 0, 4, 0, 1, 2, 0, -1, 0, 0, 0, 3, 0, 0, 0);
    assert(t30 * s0 == (-243) * mn(p, 2, 0, 4, 3, 1, 2, 0));
    lemma_tm(p, 243, 2, 0, 4, 0, 1, 2, 0, 3, 0, 0, 0, 1, 0, 2, 0);
    assert(t30 * s1 == (729) * mn(p, 2, 0, 4, 1, 1, 4, 0));
    lemma_tm(p, 243, 2, 0, 4, 0, 1, 2, 0, 1, 0, 0, 0, 0, 2, 1, 0);
    assert(t30 * s2 == (243) * mn(p, 2, 0, 4, 0, 3, 3, 0));
    lemma_tm(p, 243, 2, 0, 4, 0, 1, 2, 0, -1, 0, 0, 0, 0, 0, 3, 1);
    assert(t30 * s3 == (-243) * mn(p, 2, 0, 4, 0, 1, 5, 1));
    assert(t30 * q == (-243) * mn(p, 2, 0, 4, 3, 1, 2, 0) + (729) * mn(p, 2, 0, 4, 1, 1, 4, 0) + (243) * mn(p, 2, 0, 4, 0, 3, 3, 0) + (-243) * mn(p, 2, 0, 4, 0, 1, 5, 1));
    lemma_tm(p, 81, 1, 4, 1, 2, 1, 0, 1, -1, 0, 0, 0, 3, 0, 0, 0);
    assert(t31 * s0 == (-81) * mn(p, 1, 4, 1, 5, 1, 0, 1));
    lemma_tm(p, 81, 1, 4, 1, 2, 1, 0, 1, 3, 0, 0, 0, 1, 0, 2, 0);
    assert(t31 * s1 == (243) * mn(p, 1, 4, 1, 3, 1, 2, 1));
    lemma_tm(p, 81, 1, 4, 1, 2, 1, 0, 1, 1, 0, 0, 0, 0, 2, 1, 0);
    assert(t31 * s2 == (81) * mn(p, 1, 4, 1, 2, 3, 1, 1));
    lemma_tm(p, 81, 1, 4, 1, 2, 1, 0, 1, -1, 0, 0, 0, 0, 0, 3, 1);
    assert(t31 * s3 == (-81) * mn(p, 1, 4, 1, 2, 1, 3, 2));
    assert(t31 * q == (-81) * mn(p, 1, 4, 1, 5, 1, 0, 1) + (243) * mn(p, 1, 4, 1, 3, 1, 2, 1) + (81) * mn(p, 1, 4, 1, 2, 3, 1, 1) + (-81) * mn(p, 1, 4, 1, 2, 1, 3, 2));
    assert(pp31 * q == (((((((27) * mn(p, 2, 4, 0, 5, 1, 0, 0) + (-27) * mn(p, 2, 4, 0, 4, 1, 1, 1)) + ((-54) * mn(p, 2, 4, 0, 3, 1, 2, 0) + ((-27) * mn(p, 2, 4, 0, 2, 3, 1, 0) + (108) * mn(p, 2, 4, 0, 2, 1, 3, 1)))) + (((27) * mn(p, 2, 4, 0, 1, 3, 2, 1) + ((-27) * mn(p, 2, 4, 0, 1, 1, 4, 2) + (-81) * mn(p, 2, 4, 0, 1, 1, 4, 0))) + ((-27) * mn(p, 2, 4, 0, 0, 3, 3, 0) + ((27) * mn(p, 2, 4, 0, 0, 1, 5, 1) + (324) * mn(p, 2, 3, 1, 6, 0, 0, 0))))) + ((((-486) * mn(p, 2, 3, 1, 5, 0, 1, 1) + ((-54) * mn(p, 2, 3, 1, 4, 2, 0, 1) + (162) * mn(p, 2, 3, 1, 4, 0, 2, 2))) + ((-648) * mn(p, 2, 3, 1, 4, 0, 2, 0) + ((-216) * mn(p, 2, 3, 1, 3, 2, 1, 0) + (1620) * mn(p, 2, 3, 1, 3, 0, 3, 1)))) + (((648) * mn(p, 2, 3, 1, 2, 2, 2, 1) + ((-972) * mn(p, 2, 3, 1, 2, 0, 4, 2) + (-972) * mn(p, 2, 3, 1, 2, 0, 4, 0))) + ((54) * mn(p, 2, 3, 1, 1, 4, 1, 1) + ((-216) * mn(p, 2, 3, 1, 1, 2, 3, 2) + (-648) * mn(p, 2, 3, 1, 1, 2, 3, 0)))))) + (((((162) * mn(p, 2, 3, 1, 1, 0, 5, 3) + (810) * mn(p, 2, 3, 1, 1, 0, 5, 1)) + ((-108) * mn(p, 2, 3, 1, 0, 4, 2, 0) + ((270) * mn(p, 2, 3, 1, 0, 2, 4, 1) + (-162) * mn(p, 2, 3, 1, 0, 0, 6, 2)))) + (((-729) * mn(p, 2, 2, 2, 5, 1, 0, 1) + ((486) * mn(p, 2, 2, 2, 4, 1, 1, 2) + (972) * mn(p, 2, 2, 2, 4, 1, 1, 0))) + ((81) * mn(p, 2, 2, 2, 3, 3, 0, 0) + ((1458) * mn(p, 2, 2, 2, 3, 1, 2, 1) + (729) * mn(p, 2, 2, 2, 2, 3, 1, 1))))) + ((((-2187) * mn(p, 2, 2, 2, 2, 1, 3, 2) + ((-2916) * mn(p, 2, 2, 2, 2, 1, 3, 0) + (-486) * mn(p, 2, 2, 2, 1, 3, 2, 2))) + ((-1215) * mn(p, 2, 2, 2, 1, 3, 2, 0) + ((486) * mn(p, 2, 2, 2, 1, 1, 4, 3) + (3159) * mn(p, 2, 2, 2, 1, 1, 4, 1)))) + (((-81) * mn(p, 2, 2, 2, 0, 5, 1, 0) + ((810) * mn(p, 2, 2, 2, 0, 3, 3, 1) + (-729) * mn(p, 2, 2, 2, 0, 1, 5, 2))) + ((-2187) * mn(p, 2, 1, 3, 6, 0, 0, 1) + ((1944) * mn(p, 2, 1, 3, 5, 0, 1, 2) + (5346) * mn(p, 2, 1, 3, 5, 0, 1, 0))))))) + ((((((162) * mn(p, 2, 1, 3, 4, 2, 0, 2) + (810) * mn(p, 2, 1, 3, 4, 2, 0, 0)) + ((-486) * mn(p, 2, 1, 3, 4, 0, 2, 3) + ((1944) * mn(p, 2, 1, 3, 4, 0, 2, 1) + (1458) * mn(p, 2, 1, 3, 3, 2, 1, 1)))) + (((-6804) * mn(p, 2, 1, 3, 3, 0, 3, 2) + ((-16524) * mn(p, 2, 1, 3, 3, 0, 3, 0) + (-2430) * mn(p, 2, 1, 3, 2, 2, 2, 2))) + ((-7776) * mn(p, 2, 1, 3, 2, 2, 2, 0) + ((3402) * mn(p, 2, 1, 3, 2, 0, 4, 3) + (19197) * mn(p, 2, 1, 3, 2, 0, 4, 1))))) + ((((-162) * mn(p, 2, 1, 3, 1, 4, 1, 2) + ((-810) * mn(p, 2, 1, 3, 1, 4, 1, 0) + (648) * mn(p, 2, 1, 3, 1, 2, 3, 3))) + ((7614) * mn(p, 2, 1, 3, 1, 2, 3, 1) + ((-486) * mn(p, 2, 1, 3, 1, 0, 5, 4) + (-8262) * mn(p, 2, 1, 3, 1, 0, 5, 2)))) + (((1458) * mn(p, 2, 1, 3, 1, 0, 5, 0) + ((729) * mn(p, 2, 1, 3, 0, 4, 2, 1) + (-1944) * mn(p, 2, 1, 3, 0, 2, 4, 2))) + ((486) * mn(p, 2, 1, 3, 0, 2, 4, 0) + ((1215) * mn(p, 2, 1, 3, 0, 0, 6, 3) + (-486) * mn(p, 2, 1, 3, 0, 0, 6, 1)))))) + (((((972) * mn(p, 2, 0, 4, 5, 1, 0, 2) + (2673) * mn(p, 2, 0, 4, 5, 1, 0, 0)) + ((-243) * mn(p, 2, 0, 4, 4, 1, 1, 3) + ((-5589) * mn(p, 2, 0, 4, 4, 1, 1, 1) + (-1215) * mn(p, 2, 0, 4, 3, 1, 2, 2)))) + (((-8262) * mn(p, 2, 0, 4, 3, 1, 2, 0) + ((-972) * mn(p, 2, 0, 4, 2, 3, 1, 2) + (-2673) * mn(p, 2, 0, 4, 2, 3, 1, 0))) + ((1701) * mn(p, 2, 0, 4, 2, 1, 3, 3) + ((19440) * mn(p, 2, 0, 4, 2, 1, 3, 1) + (243) * mn(p, 2, 0, 4, 1, 3, 2, 3))))) + ((((5589) * mn(p, 2, 0, 4, 1, 3, 2, 1) + ((-243) * mn(p, 2, 0, 4, 1, 1, 4, 4) + (-10692) * mn(p, 2, 0, 4, 1, 1, 4, 2))) + ((729) * mn(p, 2, 0, 4, 1, 1, 4, 0) + ((-1701) * mn(p, 2, 0, 4, 0, 3, 3, 2) + (243) * mn(p, 2, 0, 4, 0, 3, 3, 0)))) + (((1701) * mn(p, 2, 0, 4, 0, 1, 5, 3) + ((-243) * mn(p, 2, 0, 4, 0, 1, 5, 1) + (-81) * mn(p, 1, 4, 1, 5, 1, 0, 1))) + ((243) * mn(p, 1, 4, 1, 3, 1, 2, 1) + ((81) * mn(p, 1, 4, 1, 2, 3, 1, 1) + (-81) * mn(p, 1, 4, 1, 2, 1, 3, 2)))))))));
    assert(pp31 == ((((((-27) * mn(p, 2, 4, 0, 2, 1, 0, 0) + (27) * mn(p, 2, 4, 0, 1, 1, 1, 1)) + ((-27) * mn(p, 2, 4, 0, 0, 1, 2, 0) + (-324) * mn(p, 2, 3, 1, 3, 0, 0, 0))) + (((486) * mn(p, 2, 3, 1, 2, 0, 1, 1) + (54) * mn(p, 2, 3, 1, 1, 2, 0, 1)) + ((-162) * mn(p, 2, 3, 1, 1, 0, 2, 2) + (-324) * mn(p, 2, 3, 1, 1, 0, 2, 0)))) + ((((-108) * mn(p, 2, 3, 1, 0, 2, 1, 0) + (162) * mn(p, 2, 3, 1, 0, 0, 3, 1)) + ((729) * mn(p, 2, 2, 2, 2, 1, 0, 1) + (-486) * mn(p, 2, 2, 2, 1, 1, 1, 2))) + (((-972) * mn(p, 2, 2, 2, 1, 1, 1, 0) + (-81) * mn(p, 2, 2, 2, 0, 3, 0, 0)) + ((729) * mn(p, 2, 2, 2, 0, 1, 2, 1) + (2187) * mn(p, 2, 1, 3, 3, 0, 0, 1))))) + (((((-1944) * mn(p, 2, 1, 3, 2, 0, 1, 2) + (-5346) * mn(p, 2, 1, 3, 2, 0, 1, 0)) + ((-162) * mn(p, 2, 1, 3, 1, 2, 0, 2) + (-810) * mn(p, 2, 1, 3, 1, 2, 0, 0))) + (((486) * mn(p, 2, 1, 3, 1, 0, 2, 3) + (4617) * mn(p, 2, 1, 3, 1, 0, 2, 1)) + ((729) * mn(p, 2, 1, 3, 0, 2, 1, 1) + (-1215) * mn(p, 2, 1, 3, 0, 0, 3, 2)))) + ((((486) * mn(p, 2, 1, 3, 0, 0, 3, 0) + (-972) * mn(p, 2, 0, 4, 2, 1, 0, 2)) + ((-2673) * mn(p, 2, 0, 4, 2, 1, 0, 0) + (243) * mn(p, 2, 0, 4, 1, 1, 1, 3))) + (((5589) * mn(p, 2, 0, 4, 1, 1, 1, 1) + (-1701) * mn(p, 2, 0, 4, 0, 1, 2, 2)) + ((243) * mn(p, 2, 0, 4, 0, 1, 2, 0) + (81) * mn(p, 1, 4, 1, 2, 1, 0, 1)))))));
    assert(q == (((-1) * mn(p, 0, 0, 0, 3, 0, 0, 0) + (3) * mn(p, 0, 0, 0, 1, 0, 2, 0)) + ((1) * mn(p, 0, 0, 0, 0, 2, 1, 0) + (-1) * mn(p, 0, 0, 0, 0, 0, 3, 1))));
}

#[verifier::rlimit(100)]
proof fn acc_prod42_c1(p: Pt)
    ensures
        (((((((-324) * mn(p, 1, 4, 1, 1, 1, 1, 0) + (-9) * mn(p, 1, 4, 1, 0, 3, 0, 0)) + ((81) * mn(p, 1, 4, 1, 0, 1, 2, 1) + (567) * mn(p, 1, 3, 2, 3, 0, 0, 1))) + (((-486) * mn(p, 1, 3, 2, 2, 0, 1, 2) + (-1458) * mn(p, 1, 3, 2, 2, 0, 1, 0)) + ((-378) * mn(p, 1, 3, 2, 1, 2, 0, 0) + (1701) * mn(p, 1, 3, 2, 1, 0, 2, 1)))) + ((((189) * mn(p, 1, 3, 2, 0, 2, 1, 1) + (-81) * mn(p, 1, 3, 2, 0, 0, 3, 2)) + ((-810) * mn(p, 1, 3, 2, 0, 0, 3, 0) + (-324) * mn(p, 1, 2, 3, 2, 1, 0, 2))) + (((-2349) * mn(p, 1, 2, 3, 2, 1, 0, 0) + (3645) * mn(p, 1, 2, 3, 1, 1, 1, 1)) + ((81) * mn(p, 1, 2, 3, 0, 3, 0, 1) + (-405) * mn(p, 1, 2, 3, 0, 1, 2, 2))))) + (((((-2025) * mn(p, 1, 2, 3, 0, 1, 2, 0) + (-1215) * mn(p, 1, 1, 4, 3, 0, 0, 2)) + ((-3888) * mn(p, 1, 1, 4, 3, 0, 0, 0) + (486) * mn(p, 1, 1, 4, 2, 0, 1, 3))) + (((11178) * mn(p, 1, 1, 4, 2, 0, 1, 1) + (1458) * mn(p, 1, 1, 4, 1, 2, 0, 1)) + ((-5589) * mn(p, 1, 1, 4, 1, 0, 2, 2) + (-3888) * mn(p, 1, 1, 4, 1, 0, 2, 0)))) + ((((-405) * mn(p, 1, 1, 4, 0, 2, 1, 2) + (-1296) * mn(p, 1, 1, 4, 0, 2, 1, 0)) + ((729) * mn(p, 1, 1, 4, 0, 0, 3, 3) + (1458) * mn(p, 1, 1, 4, 0, 0, 3, 1))) + (((243) * mn(p, 1, 0, 5, 2, 1, 0, 3) + (5589) * mn(p, 1, 0, 5, 2, 1, 0, 1)) + ((-4617) * mn(p, 1, 0, 5, 1, 1, 1, 2) + (-7776) * mn(p, 1, 0, 5, 1, 1, 1, 0))))))) * ((((-1) * mn(p, 0, 0, 0, 3, 0, 0, 0) + (3) * mn(p, 0, 0, 0, 1, 0, 2, 0)) + ((1) * mn(p, 0, 0, 0, 0, 2, 1, 0) + (-1) * mn(p, 0, 0, 0, 0, 0, 3, 1)))) == (((((((324) * mn(p, 1, 4, 1, 4, 1, 1, 0) + (9) * mn(p, 1, 4, 1, 3, 3, 0, 0)) + ((-81) * mn(p, 1, 4, 1, 3, 1, 2, 1) + ((-972) * mn(p, 1, 4, 1, 2, 1, 3, 0) + (-351) * mn(p, 1, 4, 1, 1, 3, 2, 0)))) + (((567) * mn(p, 1, 4, 1, 1, 1, 4, 1) + ((-9) * mn(p, 1, 4, 1, 0, 5, 1, 0) + (90) * mn(p, 1, 4, 1, 0, 3, 3, 1))) + ((-81) * mn(p, 1, 4, 1, 0, 1, 5, 2) + ((-567) * mn(p, 1, 3, 2, 6, 0, 0, 1) + (486) * mn(p, 1, 3, 2, 5, 0, 1, 2))))) + ((((1458) * mn(p, 1, 3, 2, 5, 0, 1, 0) + (378) * mn(p, 1, 3, 2, 4, 2, 0, 0)) + ((378) * mn(p, 1, 3, 2, 3, 2, 1, 1) + ((-1944) * mn(p, 1, 3, 2, 3, 0, 3, 2) + (-3564) * mn(p, 1, 3, 2, 3, 0, 3, 0)))) + (((-486) * mn(p, 1, 3, 2, 2, 2, 2, 2) + ((-2592) * mn(p, 1, 3, 2, 2, 2, 2, 0) + (486) * mn(p, 1, 3, 2, 2, 0, 4, 3))) + ((6561) * mn(p, 1, 3, 2, 2, 0, 4, 1) + ((-378) * mn(p, 1, 3, 2, 1, 4, 1, 0) + (2646) * mn(p, 1, 3, 2, 1, 2, 3, 1)))))) + (((((-1944) * mn(p, 1, 3, 2, 1, 0, 5, 2) + (-2430) * mn(p, 1, 3, 2, 1, 0, 5, 0)) + ((189) * mn(p, 1, 3, 2, 0, 4, 2, 1) + ((-270) * mn(p, 1, 3, 2, 0, 2, 4, 2) + (-810) * mn(p, 1, 3, 2, 0, 2, 4, 0)))) + (((81) * mn(p, 1, 3, 2, 0, 0, 6, 3) + ((810) * mn(p, 1, 3, 2, 0, 0, 6, 1) + (324) * mn(p, 1, 2, 3, 5, 1, 0, 2))) + ((2349) * mn(p, 1, 2, 3, 5, 1, 0, 0) + ((-3645) * mn(p, 1, 2, 3, 4, 1, 1, 1) + (-81) * mn(p, 1, 2, 3, 3, 3, 0, 1))))) + ((((-567) * mn(p, 1, 2, 3, 3, 1, 2, 2) + (-5022) * mn(p, 1, 2, 3, 3, 1, 2, 0)) + ((-324) * mn(p, 1, 2, 3, 2, 3, 1, 2) + ((-2349) * mn(p, 1, 2, 3, 2, 3, 1, 0) + (324) * mn(p, 1, 2, 3, 2, 1, 3, 3)))) + (((13284) * mn(p, 1, 2, 3, 2, 1, 3, 1) + ((3888) * mn(p, 1, 2, 3, 1, 3, 2, 1) + (-4860) * mn(p, 1, 2, 3, 1, 1, 4, 2))) + ((-6075) * mn(p, 1, 2, 3, 1, 1, 4, 0) + ((81) * mn(p, 1, 2, 3, 0, 5, 1, 1) + (-486) * mn(p, 1, 2, 3, 0, 3, 3, 2))))))) + ((((((-2025) * mn(p, 1, 2, 3, 0, 3, 3, 0) + (405) * mn(p, 1, 2, 3, 0, 1, 5, 3)) + ((2025) * mn(p, 1, 2, 3, 0, 1, 5, 1) + ((1215) * mn(p, 1, 1, 4, 6, 0, 0, 2) + (3888) * mn(p, 1, 1, 4, 6, 0, 0, 0)))) + (((-486) * mn(p, 1, 1, 4, 5, 0, 1, 3) + ((-11178) * mn(p, 1, 1, 4, 5, 0, 1, 1) + (-1458) * mn(p, 1, 1, 4, 4, 2, 0, 1))) + ((1944) * mn(p, 1, 1, 4, 4, 0, 2, 2) + ((-7776) * mn(p, 1, 1, 4, 4, 0, 2, 0) + (-810) * mn(p, 1, 1, 4, 3, 2, 1, 2))))) + ((((-2592) * mn(p, 1, 1, 4, 3, 2, 1, 0) + (1944) * mn(p, 1, 1, 4, 3, 0, 3, 3)) + ((35964) * mn(p, 1, 1, 4, 3, 0, 3, 1) + ((486) * mn(p, 1, 1, 4, 2, 2, 2, 3) + (15552) * mn(p, 1, 1, 4, 2, 2, 2, 1)))) + (((-486) * mn(p, 1, 1, 4, 2, 0, 4, 4) + ((-27945) * mn(p, 1, 1, 4, 2, 0, 4, 2) + (-11664) * mn(p, 1, 1, 4, 2, 0, 4, 0))) + ((1458) * mn(p, 1, 1, 4, 1, 4, 1, 1) + ((-8262) * mn(p, 1, 1, 4, 1, 2, 3, 2) + (-7776) * mn(p, 1, 1, 4, 1, 2, 3, 0)))))) + (((((7776) * mn(p, 1, 1, 4, 1, 0, 5, 3) + (8262) * mn(p, 1, 1, 4, 1, 0, 5, 1)) + ((-405) * mn(p, 1, 1, 4, 0, 4, 2, 2) + ((-1296) * mn(p, 1, 1, 4, 0, 4, 2, 0) + (1134) * mn(p, 1, 1, 4, 0, 2, 4, 3)))) + (((2754) * mn(p, 1, 1, 4, 0, 2, 4, 1) + ((-729) * mn(p, 1, 1, 4, 0, 0, 6, 4) + (-1458) * mn(p, 1, 1, 4, 0, 0, 6, 2))) + ((-243) * mn(p, 1, 0, 5, 5, 1, 0, 3) + ((-5589) * mn(p, 1, 0, 5, 5, 1, 0, 1) + (4617) * mn(p, 1, 0, 5, 4, 1, 1, 2))))) + ((((7776) * mn(p, 1, 0, 5, 4, 1, 1, 0) + ((729) * mn(p, 1, 0, 5, 3, 1, 2, 3) + (16767) * mn(p, 1, 0, 5, 3, 1, 2, 1))) + ((243) * mn(p, 1, 0, 5, 2, 3, 1, 3) + ((5589) * mn(p, 1, 0, 5, 2, 3, 1, 1) + (-243) * mn(p, 1, 0, 5, 2, 1, 3, 4)))) + (((-19440) * mn(p, 1, 0, 5, 2, 1, 3, 2) + ((-23328) * mn(p, 1, 0, 5, 2, 1, 3, 0) + (-4617) * mn(p, 1, 0, 5, 1, 3, 2, 2))) + ((-7776) * mn(p, 1, 0, 5, 1, 3, 2, 0) + ((4617) * mn(p, 1, 0, 5, 1, 1, 4, 3) + (7776) * mn(p, 1, 0, 5, 1, 1, 4, 1)))))))),
{
    let t0 = (-324) * mn(p, 1, 4, 1, 1, 1, 1, 0);
    let t1 = (-9) * mn(p, 1, 4, 1, 0, 3, 0, 0);
    let t2 = (81) * mn(p, 1, 4, 1, 0, 1, 2, 1);
    let t3 = (567) * mn(p, 1, 3, 2, 3, 0, 0, 1);
    let t4 = (-486) * mn(p, 1, 3, 2, 2, 0, 1, 2);
    let t5 = (-1458) * mn(p, 1, 3, 2, 2, 0, 1, 0);
    let t6 = (-378) * mn(p, 1, 3, 2, 1, 2, 0, 0);
    let t7 = (1701) * mn(p, 1, 3, 2, 1, 0, 2, 1);
    let t8 = (189) * mn(p, 1, 3, 2, 0, 2, 1, 1);
    let t9 = (-81) * mn(p, 1, 3, 2, 0, 0, 3, 2);
    let t10 = (-810) * mn(p, 1, 3, 2, 0, 0, 3, 0);
    let t11 = (-324) * mn(p, 1, 2, 3, 2, 1, 0, 2);
    let t12 = (-2349) * mn(p, 1, 2, 3, 2, 1, 0, 0);
    let t13 = (3645) * mn(p, 1, 2, 3, 1, 1, 1, 1);
    let t14 = (81) * mn(p, 1, 2, 3, 0, 3, 0, 1);
    let t15 = (-405) * mn(p, 1, 2, 3, 0, 1, 2, 2);
    let t16 = (-2025) * mn(p, 1, 2, 3, 0, 1, 2, 0);
    let t17 = (-1215) * mn(p, 1, 1, 4, 3, 0, 0, 2);
    let t18 = (-3888) * mn(p, 1, 1, 4, 3, 0, 0, 0);
    let t19 = (486) * mn(p, 1, 1, 4, 2, 0, 1, 3);
    let t20 = (11178) * mn(p, 1, 1, 4, 2, 0, 1, 1);
    let t21 = (1458) * mn(p, 1, 1, 4, 1, 2, 0, 1);
    let t22 = (-5589) * mn(p, 1, 1, 4, 1, 0, 2, 2);
    let t23 = (-3888) * mn(p, 1, 1, 4, 1, 0, 2, 0);
    let t24 = (-405) * mn(p, 1, 1, 4, 0, 2, 1, 2);
    let t25 = (-1296) * mn(p, 1, 1, 4, 0, 2, 1, 0);
    let t26 = (729) * mn(p, 1, 1, 4, 0, 0, 3, 3);
    let t27 = (1458) * mn(p, 1, 1, 4, 0, 0, 3, 1);
    let t28 = (243) * mn(p, 1, 0, 5, 2, 1, 0, 3);
    let t29 = (5589) * mn(p, 1, 0, 5, 2, 1, 0, 1);
    let t30 = (-4617) * mn(p, 1, 0, 5, 1, 1, 1, 2);
    let t31 = (-7776) * mn(p, 1, 0, 5, 1, 1, 1, 0);
    let s0 = (-1) * mn(p, 0, 0, 0, 3, 0, 0, 0);
    let s1 = (3) * mn(p, 0, 0, 0, 1, 0, 2, 0);
    let s2 = (1) * mn(p, 0, 0, 0, 0, 2, 1, 0);
    let s3 = (-1) * mn(p, 0, 0, 0, 0, 0, 3, 1);
    let pp0 = t0;
    let pp1 = pp0 + t1;
    let pp2 = pp1 + t2;
    let pp3 = pp2 + t3;
    let pp4 = pp3 + t4;
    let pp5 = pp4 + t5;
    let pp6 = pp5 + t6;
    let pp7 = pp6 + t7;
    let pp8 = pp7 + t8;
    let pp9 = pp8 + t9;
    let pp10 = pp9 + t10;
    let pp11 = pp10 + t11;
    let pp12 = pp11 + t12;
    let pp13 = pp12 + t13;
    let pp14 = pp13 + t14;
    let pp15 = pp14 + t15;
    let pp16 = pp15 + t16;
    let pp17 = pp16 + t17;
    let pp18 = pp17 + t18;
    let pp19 = pp18 + t19;
    let pp20 = pp19 + t20;
    let pp21 = pp20 + t21;
    let pp22 = pp21 + t22;
    let pp23 = pp22 + t23;
    let pp24 = pp23 + t24;
    let pp25 = pp24 + t25;
    let pp26 = pp25 + t26;
    let pp27 = pp26 + t27;
    let pp28 = pp27 + t28;
    let pp29 = pp28 + t29;
    let pp30 = pp29 + t30;
    let pp31 = pp30 + t31;
    let qq0 = s0;
    let qq1 = qq0 + s1;
    let qq2 = qq1 + s2;
    let qq3 = qq2 + s3;
    let q = qq3;
    lemma_mul_is_distributive_add_other_way(q, pp0, t1);
    lemma_mul_is_distributive_add_other_way(q, pp1, t2);
    lemma_mul_is_distributive_add_other_way(q, pp2, t3);
    lemma_mul_is_distributive_add_other_way(q, pp3, t4);
    lemma_mul_is_distributive_add_other_way(q, pp4, t5);
    lemma_mul_is_distributive_add_other_way(q, pp5, t6);
    lemma_mul_is_distributive_add_other_way(q, pp6, t7);
    lemma_mul_is_distributive_add_other_way(q, pp7, t8);
    lemma_mul_is_distributive_add_other_way(q, pp8, t9);
    lemma_mul_is_distributive_add_other_way(q, pp9, t10);
    lemma_mul_is_distributive_add_other_way(q, pp10, t11);
    lemma_mul_is_distributive_add_other_way(q, pp11, t12);
    lemma_mul_is_distributive_add_other_way(q, pp12, t13);
    lemma_mul_is_distributive_add_other_way(q, pp13, t14);
    lemma_mul_is_distributive_add_other_way(q, pp14, t15);
    lemma_mul_is_distributive_add_other_way(q, pp15, t16);
    lemma_mul_is_distributive_add_other_way(q, pp16, t17);
    lemma_mul_is_distributive_add_other_way(q, pp17, t18);
    lemma_mul_is_distributive_add_other_way(q, pp18, t19);
    lemma_mul_is_distributive_add_other_way(q, pp19, t20);
    lemma_mul_is_distributive_add_other_way(q, pp20, t21);
    lemma_mul_is_distributive_add_other_way(q, pp21, t22);
    lemma_mul_is_distributive_add_other_way(q, pp22, t23);
    lemma_mul_is_distributive_add_other_way(q, pp23, t24);
    lemma_mul_is_distributive_add_other_way(q, pp24, t25);
    lemma_mul_is_distributive_add_other_way(q, pp25, t26);
    lemma_mul_is_distributive_add_other_way(q, pp26, t27);
    lemma_mul_is_distributive_add_other_way(q, pp27, t28);
    lemma_mul_is_distributive_add_other_way(q, pp28, t29);
    lemma_mul_is_distributive_add_other_way(q, pp29, t30);
    lemma_mul_is_distributive_add_other_way(q, pp30, t31);
    lemma_mul_is_distributive_add(t0, qq0, s1);
    lemma_mul_is_distributive_add(t0, qq1, s2);
    lemma_mul_is_distributive_add(t0, qq2, s3);
    lemma_mul_is_distributive_add(t1, qq0, s1);
    lemma_mul_is_distributive_add(t1, qq1, s2);
    lemma_mul_is_distributive_add(t1, qq2, s3);
    lemma_mul_is_distributive_add(t2, qq0, s1);
    lemma_mul_is_distributive_add(t2, qq1, s2);
    lemma_mul_is_distributive_add(t2, qq2, s3);
    lemma_mul_is_distributive_add(t3, qq0, s1);
    lemma_mul_is_distributive_add(t3, qq1, s2);
    lemma_mul_is_distributive_add(t3, qq2, s3);
    lemma_mul_is_distributive_add(t4, qq0, s1);
    lemma_mul_is_distributive_add(t4, qq1, s2);
    lemma_mul_is_distributive_add(t4, qq2, s3);
    lemma_mul_is_distributive_add(t5, qq0, s1);
    lemma_mul_is_distributive_add(t5, qq1, s2);
    lemma_mul_is_distributive_add(t5, qq2, s3);
    lemma_mul_is_distributive_add(t6, qq0, s1);
    lemma_mul_is_distributive_add(t6, qq1, s2);
    lemma_mul_is_distributive_add(t6, qq2, s3);
    lemma_mul_is_distributive_add(t7, qq0, s1);
    lemma_mul_is_distributive_add(t7, qq1, s2);
    lemma_mul_is_distributive_add(t7, qq2, s3);
    lemma_mul_is_distributive_add(t8, qq0, s1);
    lemma_mul_is_distributive_add(t8, qq1, s2);
    lemma_mul_is_distributive_add(t8, qq2, s3);
    lemma_mul_is_distributive_add(t9, qq0, s1);
    lemma_mul_is_distributive_add(t9, qq1, s2);
    lemma_mul_is_distributive_add(t9, qq2, s3);
    lemma_mul_is_distributive_add(t10, qq0, s1);
    lemma_mul_is_distributive_add(t10, qq1, s2);
    lemma_mul_is_distributive_add(t10, qq2, s3);
    lemma_mul_is_distributive_add(t11, qq0, s1);
    lemma_mul_is_distributive_add(t11, qq1, s2);
    lemma_mul_is_distributive_add(t11, qq2, s3);
    lemma_mul_is_distributive_add(t12, qq0, s1);
    lemma_mul_is_distributive_add(t12, qq1, s2);
    lemma_mul_is_distributive_add(t12, qq2, s3);
    lemma_mul_is_distributive_add(t13, qq0, s1);
    lemma_mul_is_distributive_add(t13, qq1, s2);
    lemma_mul_is_distributive_add(t13, qq2, s3);
    lemma_mul_is_distributive_add(t14, qq0, s1);
    lemma_mul_is_distributive_add(t14, qq1, s2);
    lemma_mul_is_distributive_add(t14, qq2, s3);
    lemma_mul_is_distributive_add(t15, qq0, s1);
    lemma_mul_is_distributive_add(t15, qq1, s2);
    lemma_mul_is_distributive_add(t15, qq2, s3);
    lemma_mul_is_distributive_add(t16, qq0, s1);
    lemma_mul_is_distributive_add(t16, qq1, s2);
    lemma_mul_is_distributive_add(t16, qq2, s3);
    lemma_mul_is_distributive_add(t17, qq0, s1);
    lemma_mul_is_distributive_add(t17, qq1, s2);
    lemma_mul_is_distributive_add(t17, qq2, s3);
    lemma_mul_is_distributive_add(t18, qq0, s1);
    lemma_mul_is_distributive_add(t18, qq1, s2);
    lemma_mul_is_distributive_add(t18, qq2, s3);
    lemma_mul_is_distributive_add(t19, qq0, s1);
    lemma_mul_is_distributive_add(t19, qq1, s2);
    lemma_mul_is_distributive_add(t19, qq2, s3);
    lemma_mul_is_distributive_add(t20, qq0, s1);
    lemma_mul_is_distributive_add(t20, qq1, s2);
    lemma_mul_is_distributive_add(t20, qq2, s3);
    lemma_mul_is_distributive_add(t21, qq0, s1);
    lemma_mul_is_distributive_add(t21, qq1, s2);
    lemma_mul_is_distributive_add(t21, qq2, s3);
    lemma_mul_is_distributive_add(t22, qq0, s1);
    lemma_mul_is_distributive_add(t22, qq1, s2);
    lemma_mul_is_distributive_add(t22, qq2, s3);
    lemma_mul_is_distributive_add(t23, qq0, s1);
    lemma_mul_is_distributive_add(t23, qq1, s2);
    lemma_mul_is_distributive_add(t23, qq2, s3);
    lemma_mul_is_distributive_add(t24, qq0, s1);
    lemma_mul_is_distributive_add(t24, qq1, s2);
    lemma_mul_is_distributive_add(t24, qq2, s3);
    lemma_mul_is_distributive_add(t25, qq0, s1);
    lemma_mul_is_distributive_add(t25, qq1, s2);
    lemma_mul_is_distributive_add(t25, qq2, s3);
    lemma_mul_is_distributive_add(t26, qq0, s1);
    lemma_mul_is_distributive_add(t26, qq1, s2);
    lemma_mul_is_distributive_add(t26, qq2, s3);
    lemma_mul_is_distributive_add(t27, qq0, s1);
    lemma_mul_is_distributive_add(t27, qq1, s2);
    lemma_mul_is_distributive_add(t27, qq2, s3);
    lemma_mul_is_distributive_add(t28, qq0, s1);
    lemma_mul_is_distributive_add(t28, qq1, s2);
    lemma_mul_is_distributive_add(t28, qq2, s3);
    lemma_mul_is_distributive_add(t29, qq0, s1);
    lemma_mul_is_distributive_add(t29, qq1, s2);
    lemma_mul_is_distributive_add(t29, qq2, s3);
    lemma_mul_is_distributive_add(t30, qq0, s1);
    lemma_mul_is_distributive_add(t30, qq1, s2);
    lemma_mul_is_distributive_add(t30, qq2, s3);
    lemma_mul_is_distributive_add(t31, qq0, s1);
    lemma_mul_is_distributive_add(t31, qq1, s2);
    lemma_mul_is_distributive_add(t31, qq2, s3);
    lemma_tm(p, -324, 1, 4, 1, 1, 1, 1, 0, -1, 0, 0, 0, 3, 0, 0, 0);
    assert(t0 * s0 == (324) * mn(p, 1, 4, 1, 4, 1, 1, 0));
    lemma_tm(p, -324, 1, 4, 1, 1, 1, 1, 0, 3, 0, 0, 0, 1, 0, 2, 0);
    assert(t0 * s1 == (-972) * mn(p, 1, 4, 1, 2, 1, 3, 0));
    lemma_tm(p, -324, 1, 4, 1, 1, 1, 1, 0, 1, 0, 0, 0, 0, 2, 1, 0);
    assert(t0 * s2 == (-324) * mn(p, 1, 4, 1, 1, 3, 2, 0));
    lemma_tm(p, -324, 1, 4, 1, 1, 1, 1, 0, -1, 0, 0, 0, 0, 0, 3, 1);
    assert(t0 * s3 == (324) * mn(p, 1, 4, 1, 1, 1, 4, 1));
    assert(t0 * q == (324) * mn(p, 1, 4, 1, 4, 1, 1, 0) + (-972) * mn(p, 1, 4, 1, 2, 1, 3, 0) + (-324) * mn(p, 1, 4, 1, 1, 3, 2, 0) + (324) * mn(p, 1, 4, 1, 1, 1, 4, 1));
    lemma_tm(p, -9, 1, 4, 1, 0, 3, 0, 0, -1, 0, 0, 0, 3, 0, 0, 0);
    assert(t1 * s0 == (9) * mn(p, 1, 4, 1, 3, 3, 0, 0));
    lemma_tm(p, -9, 1, 4, 1, 0, 3, 0, 0, 3, 0, 0, 0, 1, 0, 2, 0);
    assert(t1 * s1 == (-27) * mn(p, 1, 4, 1, 1, 3, 2, 0));
    lemma_tm(p, -9, 1, 4, 1, 0, 3, 0, 0, 1, 0, 0, 0, 0, 2, 1, 0);
    assert(t1 * s2 == (-9) * mn(p, 1, 4, 1, 0, 5, 1, 0));
    lemma_tm(p, -9, 1, 4, 1, 0, 3, 0, 0, -1, 0, 0, 0, 0, 0, 3, 1);
    assert(t1 * s3 == (9) * mn(p, 1, 4, 1, 0, 3, 3, 1));
    assert(t1 * q == (9) * mn(p, 1, 4, 1, 3, 3, 0, 0) + (-27) * mn(p, 1, 4, 1, 1, 3, 2, 0) + (-9) * mn(p, 1, 4, 1, 0, 5, 1, 0) + (9) * mn(p, 1, 4, 1, 0, 3, 3, 1));
    lemma_tm(p, 81, 1, 4, 1, 0, 1, 2, 1, -1, 0, 0, 0, 3, 0, 0, 0);
    assert(t2 * s0 == (-81) * mn(p, 1, 4, 1, 3, 1, 2, 1));
    lemma_tm(p, 81, 1, 4, 1, 0, 1, 2, 1, 3, 0, 0, 0, 1, 0, 2, 0);
    assert(t2 * s1 == (243) * mn(p, 1, 4, 1, 1, 1, 4, 1));
    lemma_tm(p, 81, 1, 4, 1, 0, 1, 2, 1, 1, 0, 0, 0, 0, 2, 1, 0);
    assert(t2 * s2 == (81) * mn(p, 1, 4, 1, 0, 3, 3, 1));
    lemma_tm(p, 81, 1, 4, 1, 0, 1, 2, 1, -1, 0, 0, 0, 0, 0, 3, 1);
    assert(t2 * s3 == (-81) * mn(p, 1, 4, 1, 0, 1, 5, 2));
    assert(t2 * q == (-81) * mn(p, 1, 4, 1, 3, 1, 2, 1) + (243) * mn(p, 1, 4, 1, 1, 1, 4, 1) + (81) * mn(p, 1, 4, 1, 0, 3, 3, 1) + (-81) * mn(p, 1, 4, 1, 0, 1, 5, 2));
    lemma_tm(p, 567, 1, 3, 2, 3, 0, 0, 1, -1, 0, 0, 0, 3, 0, 0, 0);
    assert(t3 * s0 == (-567) * mn(p, 1, 3, 2, 6, 0, 0, 1));
    lemma_tm(p, 567, 1, 3, 2, 3, 0, 0, 1, 3, 0, 0, 0, 1, 0, 2, 0);
    assert(t3 * s1 == (1701) * mn(p, 1, 3, 2, 4, 0, 2, 1));
    lemma_tm(p, 567, 1, 3, 2, 3, 0, 0, 1, 1, 0, 0, 0, 0, 2, 1, 0);
    assert(t3 * s2 == (567) * mn(p, 1, 3, 2, 3, 2, 1, 1));
    lemma_tm(p, 567, 1, 3, 2, 3, 0, 0, 1, -1, 0, 0, 0, 0, 0, 3, 1);
    assert(t3 * s3 == (-567) * mn(p, 1, 3, 2, 3, 0, 3, 2));
    assert(t3 * q == (-567) * mn(p, 1, 3, 2, 6, 0, 0, 1) + (1701) * mn(p, 1, 3, 2, 4, 0, 2, 1) + (567) * mn(p, 1, 3, 2, 3, 2, 1, 1) + (-567) * mn(p, 1, 3, 2, 3, 0, 3, 2));
    lemma_tm(p, -486, 1, 3, 2, 2, 0, 1, 2, -1, 0, 0, 0, 3, 0, 0, 0);
    assert(t4 * s0 == (486) * mn(p, 1, 3, 2, 5, 0, 1, 2));
    lemma_tm(p, -486, 1, 3, 2, 2, 0, 1, 2, 3, 0, 0, 0, 1, 0, 2, 0);
    assert(t4 * s1 == (-1458) * mn(p, 1, 3, 2, 3, 0, 3, 2));
    lemma_tm(p, -486, 1, 3, 2, 2, 0, 1, 2, 1, 0, 0, 0, 0, 2, 1, 0);
    assert(t4 * s2 == (-486) * mn(p, 1, 3, 2, 2, 2, 2, 2));
    lemma_tm(p, -486, 1, 3, 2, 2, 0, 1, 2, -1, 0, 0, 0, 0, 0, 3, 1);
    assert(t4 * s3 == (486) * mn(p, 1, 3, 2, 2, 0, 4, 3));
    assert(t4 * q == (486) * mn(p, 1, 3, 2, 5, 0, 1, 2) + (-1458) * mn(p, 1, 3, 2, 3, 0, 3, 2) + (-486) * mn(p, 1, 3, 2, 2, 2, 2, 2) + (486) * mn(p, 1, 3, 2, 2, 0, 4, 3));
    lemma_tm(p, -1458, 1, 3, 2, 2, 0, 1, 0, -1, 0, 0, 0, 3, 0, 0, 0);
    assert(t5 * s0 == (1458) * mn(p, 1, 3, 2, 5, 0, 1, 0));
    lemma_tm(p, -1458, 1, 3, 2, 2, 0, 1, 0, 3, 0, 0, 0, 1, 0, 2, 0);
    assert(t5 * s1 == (-4374) * mn(p, 1, 3, 2, 3, 0, 3, 0));
    lemma_tm(p, -1458, 1, 3, 2, 2, 0, 1, 0, 1, 0, 0, 0, 0, 2, 1, 0);
    assert(t5 * s2 == (-1458) * mn(p, 1, 3, 2, 2, 2, 2, 0));
    lemma_tm(p, -1458, 1, 3, 2, 2, 0, 1, 0, -1, 0, 0, 0, 0, 0, 3, 1);
    assert(t5 * s3 == (1458) * mn(p, 1, 3, 2, 2, 0, 4, 1));
    assert(t5 * q == (1458) * mn(p, 1, 3, 2, 5, 0, 1, 0) + (-4374) * mn(p, 1, 3, 2, 3, 0, 3, 0) + (-1458) * mn(p, 1, 3, 2, 2, 2, 2, 0) + (1458) * mn(p, 1, 3, 2, 2, 0, 4, 1));
    lemma_tm(p, -378, 1, 3, 2, 1, 2, 0, 0, -1, 0, 0, 0, 3, 0, 0, 0);
    assert(t6 * s0 == (378) * mn(p, 1, 3, 2, 4, 2, 0, 0));
    lemma_tm(p, -378, 1, 3, 2, 1, 2, 0, 0, 3, 0, 0, 0, 1, 0, 2, 0);
    assert(t6 * s1 == (-1134) * mn(p, 1, 3, 2, 2, 2, 2, 0));
    lemma_tm(p, -378, 1, 3, 2, 1, 2, 0, 0, 1, 0, 0, 0, 0, 2, 1, 0);
    assert(t6 * s2 == (-378) * mn(p, 1, 3, 2, 1, 4, 1, 0));
    lemma_tm(p, -378, 1, 3, 2, 1, 2, 0, 0, -1, 0, 0, 0, 0, 0, 3, 1);
    assert(t6 * s3 == (378) * mn(p, 1, 3, 2, 1, 2, 3, 1));
    assert(t6 * q == (378) * mn(p, 1, 3, 2, 4, 2, 0, 0) + (-1134) * mn(p, 1, 3, 2, 2, 2, 2, 0) + (-378) * mn(p, 1, 3, 2, 1, 4, 1, 0) + (378) * mn(p, 1, 3, 2, 1, 2, 3, 1));
    lemma_tm(p, 1701, 1, 3, 2, 1, 0, 2, 1, -1, 0, 0, 0, 3, 0, 0, 0);
    assert(t7 * s0 == (-1701) * mn(p, 1, 3, 2, 4, 0, 2, 1));
    lemma_tm(p, 1701, 1, 3, 2, 1, 0, 2, 1, 3, 0, 0, 0, 1, 0, 2, 0);
    assert(t7 * s1 == (5103) * mn(p, 1, 3, 2, 2, 0, 4, 1));
    lemma_tm(p, 1701, 1, 3, 2, 1, 0, 2, 1, 1, 0, 0, 0, 0, 2, 1, 0);
    assert(t7 * s2 == (1701) * mn(p, 1, 3, 2, 1, 2, 3, 1));
    lemma_tm(p, 1701, 1, 3, 2, 1, 0, 2, 1, -1, 0, 0, 0, 0, 0, 3, 1);
    assert(t7 * s3 == (-1701) * mn(p, 1, 3, 2, 1, 0, 5, 2));
    assert(t7 * q == (-1701) * mn(p, 1, 3, 2, 4, 0, 2, 1) + (5103) * mn(p, 1, 3, 2, 2, 0, 4, 1) + (1701) * mn(p, 1, 3, 2, 1, 2, 3, 1) + (-1701) * mn(p, 1, 3, 2, 1, 0, 5, 2));
    lemma_tm(p, 189, 1, 3, 2, 0, 2, 1, 1, -1, 0, 0, 0, 3, 0, 0, 0);
    assert(t8 * s0 == (-189) * mn(p, 1, 3, 2, 3, 2, 1, 1));
    lemma_tm(p, 189, 1, 3, 2, 0, 2, 1, 1, 3, 0, 0, 0, 1, 0, 2, 0);
    assert(t8 * s1 == (567) * mn(p, 1, 3, 2, 1, 2, 3, 1));
    lemma_tm(p, 189, 1, 3, 2, 0, 2, 1, 1, 1, 0, 0, 0, 0, 2, 1, 0);
    assert(t8 * s2 == (189) * mn(p, 1, 3, 2, 0, 4, 2, 1));
    lemma_tm(p, 189, 1, 3, 2, 0, 2, 1, 1, -1, 0, 0, 0, 0, 0, 3, 1);
    assert(t8 * s3 == (-189) * mn(p, 1, 3, 2, 0, 2, 4, 2));
    assert(t8 * q == (-189) * mn(p, 1, 3, 2, 3, 2, 1, 1) + (567) * mn(p, 1, 3, 2, 1, 2, 3, 1) + (189) * mn(p, 1, 3, 2, 0, 4, 2, 1) + (-189) * mn(p, 1, 3, 2, 0, 2, 4, 2));
    lemma_tm(p, -81, 1, 3, 2, 0, 0, 3, 2, -1, 0, 0, 0, 3, 0, 0, 0);
    assert(t9 * s0 == (81) * mn(p, 1, 3, 2, 3, 0, 3, 2));
    lemma_tm(p, -81, 1, 3, 2, 0, 0, 3, 2, 3, 0, 0, 0, 1, 0, 2, 0);
    assert(t9 * s1 == (-243) * mn(p, 1, 3, 2, 1, 0, 5, 2));
    lemma_tm(p, -81, 1, 3, 2, 0, 0, 3, 2, 1, 0, 0, 0, 0, 2, 1, 0);
    assert(t9 * s2 == (-81) * mn(p, 1, 3, 2, 0, 2, 4, 2));
    lemma_tm(p, -81, 1, 3, 2, 0, 0, 3, 2, -1, 0, 0, 0, 0, 0, 3, 1);
    assert(t9 * s3 == (81) * mn(p, 1, 3, 2, 0, 0, 6, 3));
    assert(t9 * q == (81) * mn(p, 1, 3, 2, 3, 0, 3, 2) + (-243) * mn(p, 1, 3, 2, 1, 0, 5, 2) + (-81) * mn(p, 1, 3, 2, 0, 2, 4, 2) + (81) * mn(p, 1, 3, 2, 0, 0, 6, 3));
    lemma_tm(p, -810, 1, 3, 2, 0, 0, 3, 0, -1, 0, 0, 0, 3, 0, 0, 0);
    assert(t10 * s0 == (810) * mn(p, 1, 3, 2, 3, 0, 3, 0));
    lemma_tm(p, -810, 1, 3, 2, 0, 0, 3, 0, 3, 0, 0, 0, 1, 0, 2, 0);
    assert(t10 * s1 == (-2430) * mn(p, 1, 3, 2, 1, 0, 5, 0));
    lemma_tm(p, -810, 1, 3, 2, 0, 0, 3, 0, 1, 0, 0, 0, 0, 2, 1, 0);
    assert(t10 * s2 == (-810) * mn(p, 1, 3, 2, 0, 2, 4, 0));
    lemma_tm(p, -810, 1, 3, 2, 0, 0, 3, 0, -1, 0, 0, 0, 0, 0, 3, 1);
    assert(t10 * s3 == (810) * mn(p, 1, 3, 2, 0, 0, 6, 1));
    assert(t10 * q == (810) * mn(p, 1, 3, 2, 3, 0, 3, 0) + (-2430) * mn(p, 1, 3, 2, 1, 0, 5, 0) + (-810) * mn(p, 1, 3, 2, 0, 2, 4, 0) + (810) * mn(p, 1, 3, 2, 0, 0, 6, 1));
    lemma_tm(p, -324, 1, 2, 3, 2, 1, 0, 2, -1, 0, 0, 0, 3, 0, 0, 0);
    assert(t11 * s0 == (324) * mn(p, 1, 2, 3, 5, 1, 0, 2));
    lemma_tm(p, -324, 1, 2, 3, 2, 1, 0, 2, 3, 0, 0, 0, 1, 0, 2, 0);
    assert(t11 * s1 == (-972) * mn(p, 1, 2, 3, 3, 1, 2, 2));
    lemma_tm(p, -324, 1, 2, 3, 2, 1, 0, 2, 1, 0, 0, 0, 0, 2, 1, 0);
    assert(t11 * s2 == (-324) * mn(p, 1, 2, 3, 2, 3, 1, 2));
    lemma_tm(p, -324, 1, 2, 3, 2, 1, 0, 2, -1, 0, 0, 0, 0, 0, 3, 1);
    assert(t11 * s3 == (324) * mn(p, 1, 2, 3, 2, 1, 3, 3));
    assert(t11 * q == (324) * mn(p, 1, 2, 3, 5, 1, 0, 2) + (-972) * mn(p, 1, 2, 3, 3, 1, 2, 2) + (-324) * mn(p, 1, 2, 3, 2, 3, 1, 2) + (324) * mn(p, 1, 2, 3, 2, 1, 3, 3));
    lemma_tm(p, -2349, 1, 2, 3, 2, 1, 0, 0, -1, 0, 0, 0, 3, 0, 0, 0);
    assert(t12 * s0 == (2349) * mn(p, 1, 2, 3, 5, 1, 0, 0));
    lemma_tm(p, -2349, 1, 2, 3, 2, 1, 0, 0, 3, 0, 0, 0, 1, 0, 2, 0);
    assert(t12 * s1 == (-7047) * mn(p, 1, 2, 3, 3, 1, 2, 0));
    lemma_tm(p, -2349, 1, 2, 3, 2, 1, 0, 0, 1, 0, 0, 0, 0, 2, 1, 0);
    assert(t12 * s2 == (-2349) * mn(p, 1, 2, 3, 2, 3, 1, 0));
    lemma_tm(p, -2349, 1, 2, 3, 2, 1, 0, 0, -1, 0, 0, 0, 0, 0, 3, 1);
    assert(t12 * s3 == (2349) * mn(p, 1, 2, 3, 2, 1, 3, 1));
    assert(t12 * q == (2349) * mn(p, 1, 2, 3, 5, 1, 0, 0) + (-7047) * mn(p, 1, 2, 3, 3, 1, 2, 0) + (-2349) * mn(p, 1, 2, 3, 2, 3, 1, 0) + (2349) * mn(p, 1, 2, 3, 2, 1, 3, 1));
    lemma_tm(p, 3645, 1, 2, 3, 1, 1, 1, 1, -1, 0, 0, 0, 3, 0, 0, 0);
    assert(t13 * s0 == (-3645) * mn(p, 1, 2, 3, 4, 1, 1, 1));
    lemma_tm(p, 3645, 1, 2, 3, 1, 1, 1, 1, 3, 0, 0, 0, 1, 0, 2, 0);
    assert(t13 * s1 == (10935) * mn(p, 1, 2, 3, 2, 1, 3, 1));
    lemma_tm(p, 3645, 1, 2, 3, 1, 1, 1, 1, 1, 0, 0, 0, 0, 2, 1, 0);
    assert(t13 * s2 == (3645) * mn(p, 1, 2, 3, 1, 3, 2, 1));
    lemma_tm(p, 3645, 1, 2, 3, 1, 1, 1, 1, -1, 0, 0, 0, 0, 0, 3, 1);
    assert(t13 * s3 == (-3645) * mn(p, 1, 2, 3, 1, 1, 4, 2));
    assert(t13 * q == (-3645) * mn(p, 1, 2, 3, 4, 1, 1, 1) + (10935) * mn(p, 1, 2, 3, 2, 1, 3, 1) + (3645) * mn(p, 1, 2, 3, 1, 3, 2, 1) + (-3645) * mn(p, 1, 2, 3, 1, 1, 4, 2));
    lemma_tm(p, 81, 1, 2, 3, 0, 3, 0, 1, -1, 0, 0, 0, 3, 0, 0, 0);
    assert(t14 * s0 == (-81) * mn(p, 1, 2, 3, 3, 3, 0, 1));
    lemma_tm(p, 81, 1, 2, 3, 0, 3, 0, 1, 3, 0, 0, 0, 1, 0, 2, 0);
    assert(t14 * s1 == (243) * mn(p, 1, 2, 3, 1, 3, 2, 1));
    lemma_tm(p, 81, 1, 2, 3, 0, 3, 0, 1, 1, 0, 0, 0, 0, 2, 1, 0);
    assert(t14 * s2 == (81) * mn(p, 1, 2, 3, 0, 5, 1, 1));
    lemma_tm(p, 81, 1, 2, 3, 0, 3, 0, 1, -1, 0, 0, 0, 0, 0, 3, 1);
    assert(t14 * s3 == (-81) * mn(p, 1, 2, 3, 0, 3, 3, 2));
    assert(t14 * q == (-81) * mn(p, 1, 2, 3, 3, 3, 0, 1) + (243) * mn(p, 1, 2, 3, 1, 3, 2, 1) + (81) * mn(p, 1, 2, 3, 0, 5, 1, 1) + (-81) * mn(p, 1, 2, 3, 0, 3, 3, 2));
    lemma_tm(p, -405, 1, 2, 3, 0, 1, 2, 2, -1, 0, 0, 0, 3, 0, 0, 0);
    assert(t15 * s0 == (405) * mn(p, 1, 2, 3, 3, 1, 2, 2));
    lemma_tm(p, -405, 1, 2, 3, 0, 1, 2, 2, 3, 0, 0, 0, 1, 0, 2, 0);
    assert(t15 * s1 == (-1215) * mn(p, 1, 2, 3, 1, 1, 4, 2));
    lemma_tm(p, -405, 1, 2, 3, 0, 1, 2, 2, 1, 0, 0, 0, 0, 2, 1, 0);
    assert(t15 * s2 == (-405) * mn(p, 1, 2, 3, 0, 3, 3, 2));
    lemma_tm(p, -405, 1, 2, 3, 0, 1, 2, 2, -1, 0, 0, 0, 0, 0, 3, 1);
    assert(t15 * s3 == (405) * mn(p, 1, 2, 3, 0, 1, 5, 3));
    assert(t15 * q == (405) * mn(p, 1, 2, 3, 3, 1, 2, 2) + (-1215) * mn(p, 1, 2, 3, 1, 1, 4, 2) + (-405) * mn(p, 1, 2, 3, 0, 3, 3, 2) + (405) * mn(p, 1, 2, 3, 0, 1, 5, 3));
    lemma_tm(p, -2025, 1, 2, 3, 0, 1, 2, 0, -1, 0, 0, 0, 3, 0, 0, 0);
    assert(t16 * s0 == (2025) * mn(p, 1, 2, 3, 3, 1, 2, 0));
    lemma_tm(p, -2025, 1, 2, 3, 0, 1, 2, 0, 3, 0, 0, 0, 1, 0, 2, 0);
    assert(t16 * s1 == (-6075) * mn(p, 1, 2, 3, 1, 1, 4, 0));
    lemma_tm(p, -2025, 1, 2, 3, 0, 1, 2, 0, 1, 0, 0, 0, 0, 2, 1, 0);
    assert(t16 * s2 == (-2025) * mn(p, 1, 2, 3, 0, 3, 3, 0));
    lemma_tm(p, -2025, 1, 2, 3, 0, 1, 2, 0, -1, 0, 0, 0, 0, 0, 3, 1);
    assert(t16 * s3 == (2025) * mn(p, 1, 2, 3, 0, 1, 5, 1));
    assert(t16 * q == (2025) * mn(p, 1, 2, 3, 3, 1, 2, 0) + (-6075) * mn(p, 1, 2, 3, 1, 1, 4, 0) + (-2025) * mn(p, 1, 2, 3, 0, 3, 3, 0) + (2025) * mn(p, 1, 2, 3, 0, 1, 5, 1));
    lemma_tm(p, -1215, 1, 1, 4, 3, 0, 0, 2, -1, 0, 0, 0, 3, 0, 0, 0);
    assert(t17 * s0 == (1215) * mn(p, 1, 1, 4, 6, 0, 0, 2));
    lemma_tm(p, -1215, 1, 1, 4, 3, 0, 0, 2, 3, 0, 0, 0, 1, 0, 2, 0);
    assert(t17 * s1 == (-3645) * mn(p, 1, 1, 4, 4, 0, 2, 2));
    lemma_tm(p, -1215, 1, 1, 4, 3, 0, 0, 2, 1, 0, 0, 0, 0, 2, 1, 0);
    assert(t17 * s2 == (-1215) * mn(p, 1, 1, 4, 3, 2, 1, 2));
    lemma_tm(p, -1215, 1, 1, 4, 3, 0, 0, 2, -1, 0, 0, 0, 0, 0, 3, 1);
    assert(t17 * s3 == (1215) * mn(p, 1, 1, 4, 3, 0, 3, 3));
    assert(t17 * q == (1215) * mn(p, 1, 1, 4, 6, 0, 0, 2) + (-3645) * mn(p, 1, 1, 4, 4, 0, 2, 2) + (-1215) * mn(p, 1, 1, 4, 3, 2, 1, 2) + (1215) * mn(p, 1, 1, 4, 3, 0, 3, 3));
    lemma_tm(p, -3888, 1, 1, 4, 3, 0, 0, 0, -1, 0, 0, 0, 3, 0, 0, 0);
    assert(t18 * s0 == (3888) * mn(p, 1, 1, 4, 6, 0, 0, 0));
    lemma_tm(p, -3888, 1, 1, 4, 3, 0, 0, 0, 3, 0, 0, 0, 1, 0, 2, 0);
    assert(t18 * s1 == (-11664) * mn(p, 1, 1, 4, 4, 0, 2, 0));
    lemma_tm(p, -3888, 1, 1, 4, 3, 0, 0, 0, 1, 0, 0, 0, 0, 2, 1, 0);
    assert(t18 * s2 == (-3888) * mn(p, 1, 1, 4, 3, 2, 1, 0));
    lemma_tm(p, -3888, 1, 1, 4, 3, 0, 0, 0, -1, 0, 0, 0, 0, 0, 3, 1);
    assert(t18 * s3 == (3888) * mn(p, 1, 1, 4, 3, 0, 3, 1));
    assert(t18 * q == (3888) * mn(p, 1, 1, 4, 6, 0, 0, 0) + (-11664) * mn(p, 1, 1, 4, 4, 0, 2, 0) + (-3888) * mn(p, 1, 1, 4, 3, 2, 1, 0) + (3888) * mn(p, 1, 1, 4, 3, 0, 3, 1));
    lemma_tm(p, 486, 1, 1, 4, 2, 0, 1, 3, -1, 0, 0, 0, 3, 0, 0, 0);
    assert(t19 * s0 == (-486) * mn(p, 1, 1, 4, 5, 0, 1, 3));
    lemma_tm(p, 486, 1, 1, 4, 2, 0, 1, 3, 3, 0, 0, 0, 1, 0, 2, 0);
    assert(t19 * s1 == (1458) * mn(p, 1, 1, 4, 3, 0, 3, 3));
    lemma_tm(p, 486, 1, 1, 4, 2, 0, 1, 3, 1, 0, 0, 0, 0, 2, 1, 0);
    assert(t19 * s2 == (486) * mn(p, 1, 1, 4, 2, 2, 2, 3));
    lemma_tm(p, 486, 1, 1, 4, 2, 0, 1, 3, -1, 0, 0, 0, 0, 0, 3, 1);
    assert(t19 * s3 == (-486) * mn(p, 1, 1, 4, 2, 0, 4, 4));
    assert(t19 * q == (-486) * mn(p, 1, 1, 4, 5, 0, 1, 3) + (1458) * mn(p, 1, 1, 4, 3, 0, 3, 3) + (486) * mn(p, 1, 1, 4, 2, 2, 2, 3) + (-486) * mn(p, 1, 1, 4, 2, 0, 4, 4));
    lemma_tm(p, 11178, 1, 1, 4, 2, 0, 1, 1, -1, 0, 0, 0, 3, 0, 0, 0);
    assert(t20 * s0 == (-11178) * mn(p, 1, 1, 4, 5, 0, 1, 1));
    lemma_tm(p, 11178, 1, 1, 4, 2, 0, 1, 1, 3, 0, 0, 0, 1, 0, 2, 0);
    assert(t20 * s1 == (33534) * mn(p, 1, 1, 4, 3, 0, 3, 1));
    lemma_tm(p, 11178, 1, 1, 4, 2, 0, 1, 1, 1, 0, 0, 0, 0, 2, 1, 0);
    assert(t20 * s2 == (11178) * mn(p, 1, 1, 4, 2, 2, 2, 1));
    lemma_tm(p, 11178, 1, 1, 4, 2, 0, 1, 1, -1, 0, 0, 0, 0, 0, 3, 1);
    assert(t20 * s3 == (-11178) * mn(p, 1, 1, 4, 2, 0, 4, 2));
    assert(t20 * q == (-11178) * mn(p, 1, 1, 4, 5, 0, 1, 1) + (33534) * mn(p, 1, 1, 4, 3, 0, 3, 1) + (11178) * mn(p, 1, 1, 4, 2, 2, 2, 1) + (-11178) * mn(p, 1, 1, 4, 2, 0, 4, 2));
    lemma_tm(p, 1458, 1, 1, 4, 1, 2, 0, 1, -1, 0, 0, 0, 3, 0, 0, 0);
    assert(t21 * s0 == (-1458) * mn(p, 1, 1, 4, 4, 2, 0, 1));
    lemma_tm(p, 1458, 1, 1, 4, 1, 2, 0, 1, 3, 0, 0, 0, 1, 0, 2, 0);
    assert(t21 * s1 == (4374) * mn(p, 1, 1, 4, 2, 2, 2, 1));
    lemma_tm(p, 1458, 1, 1, 4, 1, 2, 0, 1, 1, 0, 0, 0, 0, 2, 1, 0);
    assert(t21 * s2 == (1458) * mn(p, 1, 1, 4, 1, 4, 1, 1));
    lemma_tm(p, 1458, 1, 1, 4, 1, 2, 0, 1, -1, 0, 0, 0, 0, 0, 3, 1);
    assert(t21 * s3 == (-1458) * mn(p, 1, 1, 4, 1, 2, 3, 2));
    assert(t21 * q == (-1458) * mn(p, 1, 1, 4, 4, 2, 0, 1) + (4374) * mn(p, 1, 1, 4, 2, 2, 2, 1) + (1458) * mn(p, 1, 1, 4, 1, 4, 1, 1) + (-1458) * mn(p, 1, 1, 4, 1, 2, 3, 2));
    lemma_tm(p, -5589, 1, 1, 4, 1, 0, 2, 2, -1, 0, 0, 0, 3, 0, 0, 0);
    assert(t22 * s0 == (5589) * mn(p, 1, 1, 4, 4, 0, 2, 2));
    lemma_tm(p, -5589, 1, 1, 4, 1, 0, 2, 2, 3, 0, 0, 0, 1, 0, 2, 0);
    assert(t22 * s1 == (-16767) * mn(p, 1, 1, 4, 2, 0, 4, 2));
    lemma_tm(p, -5589, 1, 1, 4, 1, 0, 2, 2, 1, 0, 0, 0, 0, 2, 1, 0);
    assert(t22 * s2 == (-5589) * mn(p, 1, 1, 4, 1, 2, 3, 2));
    lemma_tm(p, -5589, 1, 1, 4, 1, 0, 2, 2, -1, 0, 0, 0, 0, 0, 3, 1);
    assert(t22 * s3 == (5589) * mn(p, 1, 1, 4, 1, 0, 5, 3));
    assert(t22 * q == (5589) * mn(p, 1, 1, 4, 4, 0, 2, 2) + (-16767) * mn(p, 1, 1, 4, 2, 0, 4, 2) + (-5589) * mn(p, 1, 1, 4, 1, 2, 3, 2) + (5589) * mn(p, 1, 1, 4, 1, 0, 5, 3));
    lemma_tm(p, -3888, 1, 1, 4, 1, 0, 2, 0, -1, 0, 0, 0, 3, 0, 0, 0);
    assert(t23 * s0 == (3888) * mn(p, 1, 1, 4, 4, 0, 2, 0));
    lemma_tm(p, -3888, 1, 1, 4, 1, 0, 2, 0, 3, 0, 0, 0, 1, 0, 2, 0);
    assert(t23 * s1 == (-11664) * mn(p, 1, 1, 4, 2, 0, 4, 0));
    lemma_tm(p, -3888, 1, 1, 4, 1, 0, 2, 0, 1, 0, 0, 0, 0, 2, 1, 0);
    assert(t23 * s2 == (-3888) * mn(p, 1, 1, 4, 1, 2, 3, 0));
    lemma_tm(p, -3888, 1, 1, 4, 1, 0, 2, 0, -1, 0, 0, 0, 0, 0, 3, 1);
    assert(t23 * s3 == (3888) * mn(p, 1, 1, 4, 1, 0, 5, 1));
    assert(t23 * q == (3888) * mn(p, 1, 1, 4, 4, 0, 2, 0) + (-11664) * mn(p, 1, 1, 4, 2, 0, 4, 0) + (-3888) * mn(p, 1, 1, 4, 1, 2, 3, 0) + (3888) * mn(p, 1, 1, 4, 1, 0, 5, 1));
    lemma_tm(p, -405, 1, 1, 4, 0, 2, 1, 2, -1, 0, 0, 0, 3, 0, 0, 0);
    assert(t24 * s0 == (405) * mn(p, 1, 1, 4, 3, 2, 1, 2));
    lemma_tm(p, -405, 1, 1, 4, 0, 2, 1, 2, 3, 0, 0, 0, 1, 0, 2, 0);
    assert(t24 * s1 == (-1215) * mn(p, 1, 1, 4, 1, 2, 3, 2));
    lemma_tm(p, -405, 1, 1, 4, 0, 2, 1, 2, 1, 0, 0, 0, 0, 2, 1, 0);
    assert(t24 * s2 == (-405) * mn(p, 1, 1, 4, 0, 4, 2, 2));
    lemma_tm(p, -405, 1, 1, 4, 0, 2, 1, 2, -1, 0, 0, 0, 0, 0, 3, 1);
    assert(t24 * s3 == (405) * mn(p, 1, 1, 4, 0, 2, 4, 3));
    assert(t24 * q == (405) * mn(p, 1, 1, 4, 3, 2, 1, 2) + (-1215) * mn(p, 1, 1, 4, 1, 2, 3, 2) + (-405) * mn(p, 1, 1, 4, 0, 4, 2, 2) + (405) * mn(p, 1, 1, 4, 0, 2, 4, 3));
    lemma_tm(p, -1296, 1, 1, 4, 0, 2, 1, 0, -1, 0, 0, 0, 3, 0, 0, 0);
    assert(t25 * s0 == (1296) * mn(p, 1, 1, 4, 3, 2, 1, 0));
    lemma_tm(p, -1296, 1, 1, 4, 0, 2, 1, 0, 3, 0, 0, 0, 1, 0, 2, 0);
    assert(t25 * s1 == (-3888) * mn(p, 1, 1, 4, 1, 2, 3, 0));
    lemma_tm(p, -1296, 1, 1, 4, 0, 2, 1, 0, 1, 0, 0, 0, 0, 2, 1, 0);
    assert(t25 * s2 == (-1296) * mn(p, 1, 1, 4, 0, 4, 2, 0));
    lemma_tm(p, -1296, 1, 1, 4, 0, 2, 1, 0, -1, 0, 0, 0, 0, 0, 3, 1);
    assert(t25 * s3 == (1296) * mn(p, 1, 1, 4, 0, 2, 4, 1));
    assert(t25 * q == (1296) * mn(p, 1, 1, 4, 3, 2, 1, 0) + (-3888) * mn(p, 1, 1, 4, 1, 2, 3, 0) + (-1296) * mn(p, 1, 1, 4, 0, 4, 2, 0) + (1296) * mn(p, 1, 1, 4, 0, 2, 4, 1));
    lemma_tm(p, 729, 1, 1, 4, 0, 0, 3, 3, -1, 0, 0, 0, 3, 0, 0, 0);
    assert(t26 * s0 == (-729) * mn(p, 1, 1, 4, 3, 0, 3, 3));
    lemma_tm(p, 729, 1, 1, 4, 0, 0, 3, 3, 3, 0, 0, 0, 1, 0, 2, 0);
    assert(t26 * s1 == (2187) * mn(p, 1, 1, 4, 1, 0, 5, 3));
    lemma_tm(p, 729, 1, 1, 4, 0, 0, 3, 3, 1, 0, 0, 0, 0, 2, 1, 0);
    assert(t26 * s2 == (729) * mn(p, 1, 1, 4, 0, 2, 4, 3));
    lemma_tm(p, 729, 1, 1, 4, 0, 0, 3, 3, -1, 0, 0, 0, 0, 0, 3, 1);
    assert(t26 * s3 == (-729) * mn(p, 1, 1, 4, 0, 0, 6, 4));
    assert(t26 * q == (-729) * mn(p, 1, 1, 4, 3, 0, 3, 3) + (2187) * mn(p, 1, 1, 4, 1, 0, 5, 3) + (729) * mn(p, 1, 1, 4, 0, 2, 4, 3) + (-729) * mn(p, 1, 1, 4, 0, 0, 6, 4));
    lemma_tm(p, 1458, 1, 1, 4, 0, 0, 3, 1, -1, 0, 0, 0, 3, 0, 0, 0);
    assert(t27 * s0 == (-1458) * mn(p, 1, 1, 4, 3, 0, 3, 1));
    lemma_tm(p, 1458, 1, 1, 4, 0, 0, 3, 1, 3, 0, 0, 0, 1, 0, 2, 0);
    assert(t27 * s1 == (4374) * mn(p, 1, 1, 4, 1, 0, 5, 1));
    lemma_tm(p, 1458, 1, 1, 4, 0, 0, 3, 1, 1, 0, 0, 0, 0, 2, 1, 0);
    assert(t27 * s2 == (1458) * mn(p, 1, 1, 4, 0, 2, 4, 1));
    lemma_tm(p, 1458, 1, 1, 4, 0, 0, 3, 1, -1, 0, 0, 0, 0, 0, 3, 1);
    assert(t27 * s3 == (-1458) * mn(p, 1, 1, 4, 0, 0, 6, 2));
    assert(t27 * q == (-1458) * mn(p, 1, 1, 4, 3, 0, 3, 1) + (4374) * mn(p, 1, 1, 4, 1, 0, 5, 1) + (1458) * mn(p, 1, 1, 4, 0, 2, 4, 1) + (-1458) * mn(p, 1, 1, 4, 0, 0, 6, 2));
    lemma_tm(p, 243, 1, 0, 5, 2, 1, 0, 3, -1, 0, 0, 0, 3, 0, 0, 0);
    assert(t28 * s0 == (-243) * mn(p, 1, 0, 5, 5, 1, 0, 3));
    lemma_tm(p, 243, 1, 0, 5, 2, 1, 0, 3, 3, 0, 0, 0, 1, 0, 2, 0);
    assert(t28 * s1 == (729) * mn(p, 1, 0, 5, 3, 1, 2, 3));
    lemma_tm(p, 243, 1, 0, 5, 2, 1, 0, 3, 1, 0, 0, 0, 0, 2, 1, 0);
    assert(t28 * s2 == (243) * mn(p, 1, 0, 5, 2, 3, 1, 3));
    lemma_tm(p, 243, 1, 0, 5, 2, 1, 0, 3, -1, 0, 0, 0, 0, 0, 3, 1);
    assert(t28 * s3 == (-243) * mn(p, 1, 0, 5, 2, 1, 3, 4));
    assert(t28 * q == (-243) * mn(p, 1, 0, 5, 5, 1, 0, 3) + (729) * mn(p, 1, 0, 5, 3, 1, 2, 3) + (243) * mn(p, 1, 0, 5, 2, 3, 1, 3) + (-243) * mn(p, 1, 0, 5, 2, 1, 3, 4));
    lemma_tm(p, 5589, 1, 0, 5, 2, 1, 0, 1, -1, 0, 0, 0, 3, 0, 0, 0);
    assert(t29 * s0 == (-5589) * mn(p, 1, 0, 5, 5, 1, 0, 1));
    lemma_tm(p, 5589, 1, 0, 5, 2, 1, 0, 1, 3, 0, 0, 0, 1, 0, 2, 0);
    assert(t29 * s1 == (16767) * mn(p, 1, 0, 5, 3, 1, 2, 1));
    lemma_tm(p, 5589, 1, 0, 5, 2, 1, 0, 1, 1, 0, 0, 0, 0, 2, 1, 0);
    assert(t29 * s2 == (5589) * mn(p, 1, 0, 5, 2, 3, 1, 1));
    lemma_tm(p, 5589, 1, 0, 5, 2, 1, 0, 1, -1, 0, 0, 0, 0, 0, 3, 1);
    assert(t29 * s3 == (-5589) * mn(p, 1, 0, 5, 2, 1, 3, 2));
    assert(t29 * q == (-5589) * mn(p, 1, 0, 5, 5, 1, 0, 1) + (16767) * mn(p, 1, 0, 5, 3, 1, 2, 1) + (5589) * mn(p, 1, 0, 5, 2, 3, 1, 1) + (-5589) * mn(p, 1, 0, 5, 2, 1, 3, 2));
    lemma_tm(p, -4617, 1, 0, 5, 1, 1, 1, 2, -1, 0, 0, 0, 3, 0, 0, 0);
    assert(t30 * s0 == (4617) * mn(p, 1, 0, 5, 4, 1, 1, 2));
    lemma_tm(p, -4617, 1, 0, 5, 1, 1, 1, 2, 3, 0, 0, 0, 1, 0, 2, 0);
    assert(t30 * s1 == (-13851) * mn(p, 1, 0, 5, 2, 1, 3, 2));
    lemma_tm(p, -4617, 1, 0, 5, 1, 1, 1, 2, 1, 0, 0, 0, 0, 2, 1, 0);
    assert(t30 * s2 == (-4617) * mn(p, 1, 0, 5, 1, 3, 2, 2));
    lemma_tm(p, -4617, 1, 0, 5, 1, 1, 1, 2, -1, 0, 0, 0, 0, 0, 3, 1);
    assert(t30 * s3 == (4617) * mn(p, 1, 0, 5, 1, 1, 4, 3));
    assert(t30 * q == (4617) * mn(p, 1, 0, 5, 4, 1, 1, 2) + (-13851) * mn(p, 1, 0, 5, 2, 1, 3, 2) + (-4617) * mn(p, 1, 0, 5, 1, 3, 2, 2) + (4617) * mn(p, 1, 0, 5, 1, 1, 4, 3));
    lemma_tm(p, -7776, 1, 0, 5, 1, 1, 1, 0, -1, 0, 0, 0, 3, 0, 0, 0);
    assert(t31 * s0 == (7776) * mn(p, 1, 0, 5, 4, 1, 1, 0));
    lemma_tm(p, -7776, 1, 0, 5, 1, 1, 1, 0, 3, 0, 0, 0, 1, 0, 2, 0);
    assert(t31 * s1 == (-23328) * mn(p, 1, 0, 5, 2, 1, 3, 0));
    lemma_tm(p, -7776, 1, 0, 5, 1, 1, 1, 0, 1, 0, 0, 0, 0, 2, 1, 0);
    assert(t31 * s2 == (-7776) * mn(p, 1, 0, 5, 1, 3, 2, 0));
    lemma_tm(p, -7776, 1, 0, 5, 1, 1, 1, 0, -1, 0, 0, 0, 0, 0, 3, 1);
    assert(t31 * s3 == (7776) * mn(p, 1, 0, 5, 1, 1, 4, 1));
    assert(t31 * q == (7776) * mn(p, 1, 0, 5, 4, 1, 1, 0) + (-23328) * mn(p, 1, 0, 5, 2, 1, 3, 0) + (-7776) * mn(p, 1, 0, 5, 1, 3, 2, 0) + (7776) * mn(p, 1, 0, 5, 1, 1, 4, 1));
    assert(pp31 * q == (((((((324) * mn(p, 1, 4, 1, 4, 1, 1, 0) + (9) * mn(p, 1, 4, 1, 3, 3, 0, 0)) + ((-81) * mn(p, 1, 4, 1, 3, 1, 2, 1) + ((-972) * mn(p, 1, 4, 1, 2, 1, 3, 0) + (-351) * mn(p, 1, 4, 1, 1, 3, 2, 0)))) + (((567) * mn(p, 1, 4, 1, 1, 1, 4, 1) + ((-9) * mn(p, 1, 4, 1, 0, 5, 1, 0) + (90) * mn(p, 1, 4, 1, 0, 3, 3, 1))) + ((-81) * mn(p, 1, 4, 1, 0, 1, 5, 2) + ((-567) * mn(p, 1, 3, 2, 6, 0, 0, 1) + (486) * mn(p, 1, 3, 2, 5, 0, 1, 2))))) + ((((1458) * mn(p, 1, 3, 2, 5, 0, 1, 0) + (378) * mn(p, 1, 3, 2, 4, 2, 0, 0)) + ((378) * mn(p, 1, 3, 2, 3, 2, 1, 1) + ((-1944) * mn(p, 1, 3, 2, 3, 0, 3, 2) + (-3564) * mn(p, 1, 3, 2, 3, 0, 3, 0)))) + (((-486) * mn(p, 1, 3, 2, 2, 2, 2, 2) + ((-2592) * mn(p, 1, 3, 2, 2, 2, 2, 0) + (486) * mn(p, 1, 3, 2, 2, 0, 4, 3))) + ((6561) * mn(p, 1, 3, 2, 2, 0, 4, 1) + ((-378) * mn(p, 1, 3, 2, 1, 4, 1, 0) + (2646) * mn(p, 1, 3, 2, 1, 2, 3, 1)))))) + (((((-1944) * mn(p, 1, 3, 2, 1, 0, 5, 2) + (-2430) * mn(p, 1, 3, 2, 1, 0, 5, 0)) + ((189) * mn(p, 1, 3, 2, 0, 4, 2, 1) + ((-270) * mn(p, 1, 3, 2, 0, 2, 4, 2) + (-810) * mn(p, 1, 3, 2, 0, 2, 4, 0)))) + (((81) * mn(p, 1, 3, 2, 0, 0, 6, 3) + ((810) * mn(p, 1, 3, 2, 0, 0, 6, 1) + (324) * mn(p, 1, 2, 3, 5, 1, 0, 2))) + ((2349) * mn(p, 1, 2, 3, 5, 1, 0, 0) + ((-3645) * mn(p, 1, 2, 3, 4, 1, 1, 1) + (-81) * mn(p, 1, 2, 3, 3, 3, 0, 1))))) + ((((-567) * mn(p, 1, 2, 3, 3, 1, 2, 2) + (-5022) * mn(p, 1, 2, 3, 3, 1, 2, 0)) + ((-324) * mn(p, 1, 2, 3, 2, 3, 1, 2) + ((-2349) * mn(p, 1, 2, 3, 2, 3, 1, 0) + (324) * mn(p, 1, 2, 3, 2, 1, 3, 3)))) + (((13284) * mn(p, 1, 2, 3, 2, 1, 3, 1) + ((3888) * mn(p, 1, 2, 3, 1, 3, 2, 1) + (-4860) * mn(p, 1, 2, 3, 1, 1, 4, 2))) + ((-6075) * mn(p, 1, 2, 3, 1, 1, 4, 0) + ((81) * mn(p, 1, 2, 3, 0, 5, 1, 1) + (-486) * mn(p, 1, 2, 3, 0, 3, 3, 2))))))) + ((((((-2025) * mn(p, 1, 2, 3, 0, 3, 3, 0) + (405) * mn(p, 1, 2, 3, 0, 1, 5, 3)) + ((2025) * mn(p, 1, 2, 3, 0, 1, 5, 1) + ((1215) * mn(p, 1, 1, 4, 6, 0, 0, 2) + (3888) * mn(p, 1, 1, 4, 6, 0, 0, 0)))) + (((-486) * mn(p, 1, 1, 4, 5, 0, 1, 3) + ((-11178) * mn(p, 1, 1, 4, 5, 0, 1, 1) + (-1458) * mn(p, 1, 1, 4, 4, 2, 0, 1))) + ((1944) * mn(p, 1, 1, 4, 4, 0, 2, 2) + ((-7776) * mn(p, 1, 1, 4, 4, 0, 2, 0) + (-810) * mn(p, 1, 1, 4, 3, 2, 1, 2))))) + ((((-2592) * mn(p, 1, 1, 4, 3, 2, 1, 0) + (1944) * mn(p, 1, 1, 4, 3, 0, 3, 3)) + ((35964) * mn(p, 1, 1, 4, 3, 0, 3, 1) + ((486) * mn(p, 1, 1, 4, 2, 2, 2, 3) + (15552) * mn(p, 1, 1, 4, 2, 2, 2, 1)))) + (((-486) * mn(p, 1, 1, 4, 2, 0, 4, 4) + ((-27945) * mn(p, 1, 1, 4, 2, 0, 4, 2) + (-11664) * mn(p, 1, 1, 4, 2, 0, 4, 0))) + ((1458) * mn(p, 1, 1, 4, 1, 4, 1, 1) + ((-8262) * mn(p, 1, 1, 4, 1, 2, 3, 2) + (-7776) * mn(p, 1, 1, 4, 1, 2, 3, 0)))))) + (((((7776) * mn(p, 1, 1, 4, 1, 0, 5, 3) + (8262) * mn(p, 1, 1, 4, 1, 0, 5, 1)) + ((-405) * mn(p, 1, 1, 4, 0, 4, 2, 2) + ((-1296) * mn(p, 1, 1, 4, 0, 4, 2, 0) + (1134) * mn(p, 1, 1, 4, 0, 2, 4, 3)))) + (((2754) * mn(p, 1, 1, 4, 0, 2, 4, 1) + ((-729) * mn(p, 1, 1, 4, 0, 0, 6, 4) + (-1458) * mn(p, 1, 1, 4, 0, 0, 6, 2))) + ((-243) * mn(p, 1, 0, 5, 5, 1, 0, 3) + ((-5589) * mn(p, 1, 0, 5, 5, 1, 0, 1) + (4617) * mn(p, 1, 0, 5, 4, 1, 1, 2))))) + ((((7776) * mn(p, 1, 0, 5, 4, 1, 1, 0) + ((729) * mn(p, 1, 0, 5, 3, 1, 2, 3) + (16767) * mn(p, 1, 0, 5, 3, 1, 2, 1))) + ((243) * mn(p, 1, 0, 5, 2, 3, 1, 3) + ((5589) * mn(p, 1, 0, 5, 2, 3, 1, 1) + (-243) * mn(p, 1, 0, 5, 2, 1, 3, 4)))) + (((-19440) * mn(p, 1, 0, 5, 2, 1, 3, 2) + ((-23328) * mn(p, 1, 0, 5, 2, 1, 3, 0) + (-4617) * mn(p, 1, 0, 5, 1, 3, 2, 2))) + ((-7776) * mn(p, 1, 0, 5, 1, 3, 2, 0) + ((4617) * mn(p, 1, 0, 5, 1, 1, 4, 3) + (7776) * mn(p, 1, 0, 5, 1, 1, 4, 1)))))))));
    assert(pp31 == ((((((-324) * mn(p, 1, 4, 1, 1, 1, 1, 0) + (-9) * mn(p, 1, 4, 1, 0, 3, 0, 0)) + ((81) * mn(p, 1, 4, 1, 0, 1, 2, 1) + (567) * mn(p, 1, 3, 2, 3, 0, 0, 1))) + (((-486) * mn(p, 1, 3, 2, 2, 0, 1, 2) + (-1458) * mn(p, 1, 3, 2, 2, 0, 1, 0)) + ((-378) * mn(p, 1, 3, 2, 1, 2, 0, 0) + (1701) * mn(p, 1, 3, 2, 1, 0, 2, 1)))) + ((((189) * mn(p, 1, 3, 2, 0, 2, 1, 1) + (-81) * mn(p, 1, 3, 2, 0, 0, 3, 2)) + ((-810) * mn(p, 1, 3, 2, 0, 0, 3, 0) + (-324) * mn(p, 1, 2, 3, 2, 1, 0, 2))) + (((-2349) * mn(p, 1, 2, 3, 2, 1, 0, 0) + (3645) * mn(p, 1, 2, 3, 1, 1, 1, 1)) + ((81) * mn(p, 1, 2, 3, 0, 3, 0, 1) + (-405) * mn(p, 1, 2, 3, 0, 1, 2, 2))))) + (((((-2025) * mn(p, 1, 2, 3, 0, 1, 2, 0) + (-1215) * mn(p, 1, 1, 4, 3, 0, 0, 2)) + ((-3888) * mn(p, 1, 1, 4, 3, 0, 0, 0) + (486) * mn(p, 1, 1, 4, 2, 0, 1, 3))) + (((11178) * mn(p, 1, 1, 4, 2, 0, 1, 1) + (1458) * mn(p, 1, 1, 4, 1, 2, 0, 1)) + ((-5589) * mn(p, 1, 1, 4, 1, 0, 2, 2) + (-3888) * mn(p, 1, 1, 4, 1, 0, 2, 0)))) + ((((-405) * mn(p, 1, 1, 4, 0, 2, 1, 2) + (-1296) * mn(p, 1, 1, 4, 0, 2, 1, 0)) + ((729) * mn(p, 1, 1, 4, 0, 0, 3, 3) + (1458) * mn(p, 1, 1, 4, 0, 0, 3, 1))) + (((243) * mn(p, 1, 0, 5, 2, 1, 0, 3) + (5589) * mn(p, 1, 0, 5, 2, 1, 0, 1)) + ((-4617) * mn(p, 1, 0, 5, 1, 1, 1, 2) + (-7776) * mn(p, 1, 0, 5, 1, 1, 1, 0)))))));
    assert(q == (((-1) * mn(p, 0, 0, 0, 3, 0, 0, 0) + (3) * mn(p, 0, 0, 0, 1, 0, 2, 0)) + ((1) * mn(p, 0, 0, 0, 0, 2, 1, 0) + (-1) * mn(p, 0, 0, 0, 0, 0, 3, 1))));
}

#[verifier::rlimit(100)]
proof fn acc_prod42_c2(p: Pt)
    ensures
        (((((((972) * mn(p, 1, 0, 5, 0, 1, 2, 3) + (2673) * mn(p, 1, 0, 5, 0, 1, 2, 1)) + ((1) * mn(p, 0, 6, 0, 0, 3, 0, 0) + (27) * mn(p, 0, 5, 1, 3, 0, 0, 1))) + (((-162) * mn(p, 0, 5, 1, 2, 0, 1, 0) + (-18) * mn(p, 0, 5, 1, 1, 2, 0, 0)) + ((81) * mn(p, 0, 5, 1, 1, 0, 2, 1) + (9) * mn(p, 0, 5, 1, 0, 2, 1, 1)))) + ((((-27) * mn(p, 0, 5, 1, 0, 0, 3, 2) + (54) * mn(p, 0, 5, 1, 0, 0, 3, 0)) + ((-540) * mn(p, 0, 4, 2, 2, 1, 0, 0) + (540) * mn(p, 0, 4, 2, 1, 1, 1, 1))) + (((18) * mn(p, 0, 4, 2, 0, 3, 0, 1) + (-135) * mn(p, 0, 4, 2, 0, 1, 2, 2)) + ((-270) * mn(p, 0, 3, 3, 3, 0, 0, 2) + (-1188) * mn(p, 0, 3, 3, 3, 0, 0, 0))))) + (((((3402) * mn(p, 0, 3, 3, 2, 0, 1, 1) + (378) * mn(p, 0, 3, 3, 1, 2, 0, 1)) + ((-972) * mn(p, 0, 3, 3, 1, 0, 2, 2) + (-2916) * mn(p, 0, 3, 3, 1, 0, 2, 0))) + (((-162) * mn(p, 0, 3, 3, 0, 2, 1, 2) + (-108) * mn(p, 0, 3, 3, 0, 2, 1, 0)) + ((54) * mn(p, 0, 3, 3, 0, 0, 3, 3) + (918) * mn(p, 0, 3, 3, 0, 0, 3, 1)))) + ((((2187) * mn(p, 0, 2, 4, 2, 1, 0, 1) + (-1296) * mn(p, 0, 2, 4, 1, 1, 1, 2)) + ((-3564) * mn(p, 0, 2, 4, 1, 1, 1, 0) + (-27) * mn(p, 0, 2, 4, 0, 3, 0, 2))) + (((27) * mn(p, 0, 2, 4, 0, 3, 0, 0) + (162) * mn(p, 0, 2, 4, 0, 1, 2, 3)) + ((1539) * mn(p, 0, 2, 4, 0, 1, 2, 1) + (243) * mn(p, 0, 1, 5, 3, 0, 0, 3))))))) * ((((-1) * mn(p, 0, 0, 0, 3, 0, 0, 0) + (3) * mn(p, 0, 0, 0, 1, 0, 2, 0)) + ((1) * mn(p, 0, 0, 0, 0, 2, 1, 0) + (-1) * mn(p, 0, 0, 0, 0, 0, 3, 1)))) == (((((((-972) * mn(p, 1, 0, 5, 3, 1, 2, 3) + (-2673) * mn(p, 1, 0, 5, 3, 1, 2, 1)) + ((2916) * mn(p, 1, 0, 5, 1, 1, 4, 3) + ((8019) * mn(p, 1, 0, 5, 1, 1, 4, 1) + (972) * mn(p, 1, 0, 5, 0, 3, 3, 3)))) + (((2673) * mn(p, 1, 0, 5, 0, 3, 3, 1) + ((-972) * mn(p, 1, 0, 5, 0, 1, 5, 4) + (-2673) * mn(p, 1, 0, 5, 0, 1, 5, 2))) + ((-1) * mn(p, 0, 6, 0, 3, 3, 0, 0) + ((3) * mn(p, 0, 6, 0, 1, 3, 2, 0) + (1) * mn(p, 0, 6, 0, 0, 5, 1, 0))))) + ((((-1) * mn(p, 0, 6, 0, 0, 3, 3, 1) + (-27) * mn(p, 0, 5, 1, 6, 0, 0, 1)) + ((162) * mn(p, 0, 5, 1, 5, 0, 1, 0) + ((18) * mn(p, 0, 5, 1, 4, 2, 0, 0) + (18) * mn(p, 0, 5, 1, 3, 2, 1, 1)))) + (((-540) * mn(p, 0, 5, 1, 3, 0, 3, 0) + ((-216) * mn(p, 0, 5, 1, 2, 2, 2, 0) + (405) * mn(p, 0, 5, 1, 2, 0, 4, 1))) + ((-18) * mn(p, 0, 5, 1, 1, 4, 1, 0) + ((126) * mn(p, 0, 5, 1, 1, 2, 3, 1) + (-162) * mn(p, 0, 5, 1, 1, 0, 5, 2)))))) + (((((162) * mn(p, 0, 5, 1, 1, 0, 5, 0) + (9) * mn(p, 0, 5, 1, 0, 4, 2, 1)) + ((-36) * mn(p, 0, 5, 1, 0, 2, 4, 2) + ((54) * mn(p, 0, 5, 1, 0, 2, 4, 0) + (27) * mn(p, 0, 5, 1, 0, 0, 6, 3)))) + (((-54) * mn(p, 0, 5, 1, 0, 0, 6, 1) + ((540) * mn(p, 0, 4, 2, 5, 1, 0, 0) + (-540) * mn(p, 0, 4, 2, 4, 1, 1, 1))) + ((-18) * mn(p, 0, 4, 2, 3, 3, 0, 1) + ((135) * mn(p, 0, 4, 2, 3, 1, 2, 2) + (-1620) * mn(p, 0, 4, 2, 3, 1, 2, 0))))) + ((((-540) * mn(p, 0, 4, 2, 2, 3, 1, 0) + (2160) * mn(p, 0, 4, 2, 2, 1, 3, 1)) + ((594) * mn(p, 0, 4, 2, 1, 3, 2, 1) + ((-945) * mn(p, 0, 4, 2, 1, 1, 4, 2) + (18) * mn(p, 0, 4, 2, 0, 5, 1, 1)))) + (((-153) * mn(p, 0, 4, 2, 0, 3, 3, 2) + ((135) * mn(p, 0, 4, 2, 0, 1, 5, 3) + (270) * mn(p, 0, 3, 3, 6, 0, 0, 2))) + ((1188) * mn(p, 0, 3, 3, 6, 0, 0, 0) + ((-3402) * mn(p, 0, 3, 3, 5, 0, 1, 1) + (-378) * mn(p, 0, 3, 3, 4, 2, 0, 1))))))) + ((((((162) * mn(p, 0, 3, 3, 4, 0, 2, 2) + (-648) * mn(p, 0, 3, 3, 4, 0, 2, 0)) + ((-108) * mn(p, 0, 3, 3, 3, 2, 1, 2) + ((-1080) * mn(p, 0, 3, 3, 3, 2, 1, 0) + (216) * mn(p, 0, 3, 3, 3, 0, 3, 3)))) + (((10476) * mn(p, 0, 3, 3, 3, 0, 3, 1) + ((4536) * mn(p, 0, 3, 3, 2, 2, 2, 1) + (-6318) * mn(p, 0, 3, 3, 2, 0, 4, 2))) + ((-8748) * mn(p, 0, 3, 3, 2, 0, 4, 0) + ((378) * mn(p, 0, 3, 3, 1, 4, 1, 1) + (-1836) * mn(p, 0, 3, 3, 1, 2, 3, 2))))) + ((((-3240) * mn(p, 0, 3, 3, 1, 2, 3, 0) + (1134) * mn(p, 0, 3, 3, 1, 0, 5, 3)) + ((5670) * mn(p, 0, 3, 3, 1, 0, 5, 1) + ((-162) * mn(p, 0, 3, 3, 0, 4, 2, 2) + (-108) * mn(p, 0, 3, 3, 0, 4, 2, 0)))) + (((216) * mn(p, 0, 3, 3, 0, 2, 4, 3) + ((1026) * mn(p, 0, 3, 3, 0, 2, 4, 1) + (-54) * mn(p, 0, 3, 3, 0, 0, 6, 4))) + ((-918) * mn(p, 0, 3, 3, 0, 0, 6, 2) + ((-2187) * mn(p, 0, 2, 4, 5, 1, 0, 1) + (1296) * mn(p, 0, 2, 4, 4, 1, 1, 2)))))) + (((((3564) * mn(p, 0, 2, 4, 4, 1, 1, 0) + (27) * mn(p, 0, 2, 4, 3, 3, 0, 2)) + ((-27) * mn(p, 0, 2, 4, 3, 3, 0, 0) + ((-162) * mn(p, 0, 2, 4, 3, 1, 2, 3) + (5022) * mn(p, 0, 2, 4, 3, 1, 2, 1)))) + (((2187) * mn(p, 0, 2, 4, 2, 3, 1, 1) + ((-6075) * mn(p, 0, 2, 4, 2, 1, 3, 2) + (-10692) * mn(p, 0, 2, 4, 2, 1, 3, 0))) + ((-1377) * mn(p, 0, 2, 4, 1, 3, 2, 2) + ((-3483) * mn(p, 0, 2, 4, 1, 3, 2, 0) + (1782) * mn(p, 0, 2, 4, 1, 1, 4, 3))))) + ((((8181) * mn(p, 0, 2, 4, 1, 1, 4, 1) + (-27) * mn(p, 0, 2, 4, 0, 5, 1, 2)) + ((27) * mn(p, 0, 2, 4, 0, 5, 1, 0) + ((189) * mn(p, 0, 2, 4, 0, 3, 3, 3) + (1512) * mn(p, 0, 2, 4, 0, 3, 3, 1)))) + (((-162) * mn(p, 0, 2, 4, 0, 1, 5, 4) + ((-1539) * mn(p, 0, 2, 4, 0, 1, 5, 2) + (-243) * mn(p, 0, 1, 5, 6, 0, 0, 3))) + ((729) * mn(p, 0, 1, 5, 4, 0, 2, 3) + ((243) * mn(p, 0, 1, 5, 3, 2, 1, 3) + (-243) * mn(p, 0, 1, 5, 3, 0, 3, 4)))))))),
{
    let t0 = (972) * mn(p, 1, 0, 5, 0, 1, 2, 3);
    let t1 = (2673) * mn(p, 1, 0, 5, 0, 1, 2, 1);
    let t2 = (1) * mn(p, 0, 6, 0, 0, 3, 0, 0);
    let t3 = (27) * mn(p, 0, 5, 1, 3, 0, 0, 1);
    let t4 = (-162) * mn(p, 0, 5, 1, 2, 0, 1, 0);
    let t5 = (-18) * mn(p, 0, 5, 1, 1, 2, 0, 0);
    let t6 = (81) * mn(p, 0, 5, 1, 1, 0, 2, 1);
    let t7 = (9) * mn(p, 0, 5, 1, 0, 2, 1, 1);
    let t8 = (-27) * mn(p, 0, 5, 1, 0, 0, 3, 2);
    let t9 = (54) * mn(p, 0, 5, 1, 0, 0, 3, 0);
    let t10 = (-540) * mn(p, 0, 4, 2, 2, 1, 0, 0);
    let t11 = (540) * mn(p, 0, 4, 2, 1, 1, 1, 1);
    let t12 = (18) * mn(p, 0, 4, 2, 0, 3, 0, 1);
    let t13 = (-135) * mn(p, 0, 4, 2, 0, 1, 2, 2);
    let t14 = (-270) * mn(p, 0, 3, 3, 3, 0, 0, 2);
    let t15 = (-1188) * mn(p, 0, 3, 3, 3, 0, 0, 0);
    let t16 = (3402) * mn(p, 0, 3, 3, 2, 0, 1, 1);
    let t17 = (378) * mn(p, 0, 3, 3, 1, 2, 0, 1);
    let t18 = (-972) * mn(p, 0, 3, 3, 1, 0, 2, 2);
    let t19 = (-2916) * mn(p, 0, 3, 3, 1, 0, 2, 0);
    let t20 = (-162) * mn(p, 0, 3, 3, 0, 2, 1, 2);
    let t21 = (-108) * mn(p, 0, 3, 3, 0, 2, 1, 0);
    let t22 = (54) * mn(p, 0, 3, 3, 0, 0, 3, 3);
    let t23 = (918) * mn(p, 0, 3, 3, 0, 0, 3, 1);
    let t24 = (2187) * mn(p, 0, 2, 4, 2, 1, 0, 1);
    let t25 = (-1296) * mn(p, 0, 2, 4, 1, 1, 1, 2);
    let t26 = (-3564) * mn(p, 0, 2, 4, 1, 1, 1, 0);
    let t27 = (-27) * mn(p, 0, 2, 4, 0, 3, 0, 2);
    let t28 = (27) * mn(p, 0, 2, 4, 0, 3, 0, 0);
    let t29 = (162) * mn(p, 0, 2, 4, 0, 1, 2, 3);
    let t30 = (1539) * mn(p, 0, 2, 4, 0, 1, 2, 1);
    let t31 = (243) * mn(p, 0, 1, 5, 3, 0, 0, 3);
    let s0 = (-1) * mn(p, 0, 0, 0, 3, 0, 0, 0);
    let s1 = (3) * mn(p, 0, 0, 0, 1, 0, 2, 0);
    let s2 = (1) * mn(p, 0, 0, 0, 0, 2, 1, 0);
    let s3 = (-1) * mn(p, 0, 0, 0, 0, 0, 3, 1);
    let pp0 = t0;
    let pp1 = pp0 + t1;
    let pp2 = pp1 + t2;
    let pp3 = pp2 + t3;
    let pp4 = pp3 + t4;
    let pp5 = pp4 + t5;
    let pp6 = pp5 + t6;
    let pp7 = pp6 + t7;
    let pp8 = pp7 + t8;
    let pp9 = pp8 + t9;
    let pp10 = pp9 + t10;
    let pp11 = pp10 + t11;
    let pp12 = pp11 + t12;
    let pp13 = pp12 + t13;
    let pp14 = pp13 + t14;
    let pp15 = pp14 + t15;
    let pp16 = pp15 + t16;
    let pp17 = pp16 + t17;
    let pp18 = pp17 + t18;
    let pp19 = pp18 + t19;
    let pp20 = pp19 + t20;
    let pp21 = pp20 + t21;
    let pp22 = pp21 + t22;
    let pp23 = pp22 + t23;
    let pp24 = pp23 + t24;
    let pp25 = pp24 + t25;
    let pp26 = pp25 + t26;
    let pp27 = pp26 + t27;
    let pp28 = pp27 + t28;
    let pp29 = pp28 + t29;
    let pp30 = pp29 + t30;
    let pp31 = pp30 + t31;
    let qq0 = s0;
    let qq1 = qq0 + s1;
    let qq2 = qq1 + s2;
    let qq3 = qq2 + s3;
    let q = qq3;
    lemma_mul_is_distributive_add_other_way(q, pp0, t1);
    lemma_mul_is_distributive_add_other_way(q, pp1, t2);
    lemma_mul_is_distributive_add_other_way(q, pp2, t3);
    lemma_mul_is_distributive_add_other_way(q, pp3, t4);
    lemma_mul_is_distributive_add_other_way(q, pp4, t5);
    lemma_mul_is_distributive_add_other_way(q, pp5, t6);
    lemma_mul_is_distributive_add_other_way(q, pp6, t7);
    lemma_mul_is_distributive_add_other_way(q, pp7, t8);
    lemma_mul_is_distributive_add_other_way(q, pp8, t9);
    lemma_mul_is_distributive_add_other_way(q, pp9, t10);
    lemma_mul_is_distributive_add_other_way(q, pp10, t11);
    lemma_mul_is_distributive_add_other_way(q, pp11, t12);
    lemma_mul_is_distributive_add_other_way(q, pp12, t13);
    lemma_mul_is_distributive_add_other_way(q, pp13, t14);
    lemma_mul_is_distributive_add_other_way(q, pp14, t15);
    lemma_mul_is_distributive_add_other_way(q, pp15, t16);
    lemma_mul_is_distributive_add_other_way(q, pp16, t17);
    lemma_mul_is_distributive_add_other_way(q, pp17, t18);
    lemma_mul_is_distributive_add_other_way(q, pp18, t19);
    lemma_mul_is_distributive_add_other_way(q, pp19, t20);
    lemma_mul_is_distributive_add_other_way(q, pp20, t21);
    lemma_mul_is_distributive_add_other_way(q, pp21, t22);
    lemma_mul_is_distributive_add_other_way(q, pp22, t23);
    lemma_mul_is_distributive_add_other_way(q, pp23, t24);
    lemma_mul_is_distributive_add_other_way(q, pp24, t25);
    lemma_mul_is_distributive_add_other_way(q, pp25, t26);
    lemma_mul_is_distributive_add_other_way(q, pp26, t27);
    lemma_mul_is_distributive_add_other_way(q, pp27, t28);
    lemma_mul_is_distributive_add_other_way(q, pp28, t29);
    lemma_mul_is_distributive_add_other_way(q, pp29, t30);
    lemma_mul_is_distributive_add_other_way(q, pp30, t31);
    lemma_mul_is_distributive_add(t0, qq0, s1);
    lemma_mul_is_distributive_add(t0, qq1, s2);
    lemma_mul_is_distributive_add(t0, qq2, s3);
    lemma_mul_is_distributive_add(t1, qq0, s1);
    lemma_mul_is_distributive_add(t1, qq1, s2);
    lemma_mul_is_distributive_add(t1, qq2, s3);
    lemma_mul_is_distributive_add(t2, qq0, s1);
    lemma_mul_is_distributive_add(t2, qq1, s2);
    lemma_mul_is_distributive_add(t2, qq2, s3);
    lemma_mul_is_distributive_add(t3, qq0, s1);
    lemma_mul_is_distributive_add(t3, qq1, s2);
    lemma_mul_is_distributive_add(t3, qq2, s3);
    lemma_mul_is_distributive_add(t4, qq0, s1);
    lemma_mul_is_distributive_add(t4, qq1, s2);
    lemma_mul_is_distributive_add(t4, qq2, s3);
    lemma_mul_is_distributive_add(t5, qq0, s1);
    lemma_mul_is_distributive_add(t5, qq1, s2);
    lemma_mul_is_distributive_add(t5, qq2, s3);
    lemma_mul_is_distributive_add(t6, qq0, s1);
    lemma_mul_is_distributive_add(t6, qq1, s2);
    lemma_mul_is_distributive_add(t6, qq2, s3);
    lemma_mul_is_distributive_add(t7, qq0, s1);
    lemma_mul_is_distributive_add(t7, qq1, s2);
    lemma_mul_is_distributive_add(t7, qq2, s3);
    lemma_mul_is_distributive_add(t8, qq0, s1);
    lemma_mul_is_distributive_add(t8, qq1, s2);
    lemma_mul_is_distributive_add(t8, qq2, s3);
    lemma_mul_is_distributive_add(t9, qq0, s1);
    lemma_mul_is_distributive_add(t9, qq1, s2);
    lemma_mul_is_distributive_add(t9, qq2, s3);
    lemma_mul_is_distributive_add(t10, qq0, s1);
    lemma_mul_is_distributive_add(t10, qq1, s2);
    lemma_mul_is_distributive_add(t10, qq2, s3);
    lemma_mul_is_distributive_add(t11, qq0, s1);
    lemma_mul_is_distributive_add(t11, qq1, s2);
    lemma_mul_is_distributive_add(t11, qq2, s3);
    lemma_mul_is_distributive_add(t12, qq0, s1);
    lemma_mul_is_distributive_add(t12, qq1, s2);
    lemma_mul_is_distributive_add(t12, qq2, s3);
    lemma_mul_is_distributive_add(t13, qq0, s1);
    lemma_mul_is_distributive_add(t13, qq1, s2);
    lemma_mul_is_distributive_add(t13, qq2, s3);
    lemma_mul_is_distributive_add(t14, qq0, s1);
    lemma_mul_is_distributive_add(t14, qq1, s2);
    lemma_mul_is_distributive_add(t14, qq2, s3);
    lemma_mul_is_distributive_add(t15, qq0, s1);
    lemma_mul_is_distributive_add(t15, qq1, s2);
    lemma_mul_is_distributive_add(t15, qq2, s3);
    lemma_mul_is_distributive_add(t16, qq0, s1);
    lemma_mul_is_distributive_add(t16, qq1, s2);
    lemma_mul_is_distributive_add(t16, qq2, s3);
    lemma_mul_is_distributive_add(t17, qq0, s1);
    lemma_mul_is_distributive_add(t17, qq1, s2);
    lemma_mul_is_distributive_add(t17, qq2, s3);
    lemma_mul_is_distributive_add(t18, qq0, s1);
    lemma_mul_is_distributive_add(t18, qq1, s2);
    lemma_mul_is_distributive_add(t18, qq2, s3);
    lemma_mul_is_distributive_add(t19, qq0, s1);
    lemma_mul_is_distributive_add(t19, qq1, s2);
    lemma_mul_is_distributive_add(t19, qq2, s3);
    lemma_mul_is_distributive_add(t20, qq0, s1);
    lemma_mul_is_distributive_add(t20, qq1, s2);
    lemma_mul_is_distributive_add(t20, qq2, s3);
    lemma_mul_is_distributive_add(t21, qq0, s1);
    lemma_mul_is_distributive_add(t21, qq1, s2);
    lemma_mul_is_distributive_add(t21, qq2, s3);
    lemma_mul_is_distributive_add(t22, qq0, s1);
    lemma_mul_is_distributive_add(t22, qq1, s2);
    lemma_mul_is_distributive_add(t22, qq2, s3);
    lemma_mul_is_distributive_add(t23, qq0, s1);
    lemma_mul_is_distributive_add(t23, qq1, s2);
    lemma_mul_is_distributive_add(t23, qq2, s3);
    lemma_mul_is_distributive_add(t24, qq0, s1);
    lemma_mul_is_distributive_add(t24, qq1, s2);
    lemma_mul_is_distributive_add(t24, qq2, s3);
    lemma_mul_is_distributive_add(t25, qq0, s1);
    lemma_mul_is_distributive_add(t25, qq1, s2);
    lemma_mul_is_distributive_add(t25, qq2, s3);
    lemma_mul_is_distributive_add(t26, qq0, s1);
    lemma_mul_is_distributive_add(t26, qq1, s2);
    lemma_mul_is_distributive_add(t26, qq2, s3);
    lemma_mul_is_distributive_add(t27, qq0, s1);
    lemma_mul_is_distributive_add(t27, qq1, s2);
    lemma_mul_is_distributive_add(t27, qq2, s3);
    lemma_mul_is_distributive_add(t28, qq0, s1);
    lemma_mul_is_distributive_add(t28, qq1, s2);
    lemma_mul_is_distributive_add(t28, qq2, s3);
    lemma_mul_is_distributive_add(t29, qq0, s1);
    lemma_mul_is_distributive_add(t29, qq1, s2);
    lemma_mul_is_distributive_add(t29, qq2, s3);
    lemma_mul_is_distributive_add(t30, qq0, s1);
    lemma_mul_is_distributive_add(t30, qq1, s2);
    lemma_mul_is_distributive_add(t30, qq2, s3);
    lemma_mul_is_distributive_add(t31, qq0, s1);
    lemma_mul_is_distributive_add(t31, qq1, s2);
    lemma_mul_is_distributive_add(t31, qq2, s3);
    lemma_tm(p, 972, 1, 0, 5, 0, 1, 2, 3, -1, 0, 0, 0, 3, 0, 0, 0);
    assert(t0 * s0 == (-972) * mn(p, 1, 0, 5, 3, 1, 2, 3));
    lemma_tm(p, 972, 1, 0, 5, 0, 1, 2, 3, 3, 0, 0, 0, 1, 0, 2, 0);
    assert(t0 * s1 == (2916) * mn(p, 1, 0, 5, 1, 1, 4, 3));
    lemma_tm(p, 972, 1, 0, 5, 0, 1, 2, 3, 1, 0, 0, 0, 0, 2, 1, 0);
    assert(t0 * s2 == (972) * mn(p, 1, 0, 5, 0, 3, 3, 3));
    lemma_tm(p, 972, 1, 0, 5, 0, 1, 2, 3, -1, 0, 0, 0, 0, 0, 3, 1);
    assert(t0 * s3 == (-972) * mn(p, 1, 0, 5, 0, 1, 5, 4));
    assert(t0 * q == (-972) * mn(p, 1, 0, 5, 3, 1, 2, 3) + (2916) * mn(p, 1, 0, 5, 1, 1, 4, 3) + (972) * mn(p, 1, 0, 5, 0, 3, 3, 3) + (-972) * mn(p, 1, 0, 5, 0, 1, 5, 4));
    lemma_tm(p, 2673, 1, 0, 5, 0, 1, 2, 1, -1, 0, 0, 0, 3, 0, 0, 0);
    assert(t1 * s0 == (-2673) * mn(p, 1, 0, 5, 3, 1, 2, 1));
    lemma_tm(p, 2673, 1, 0, 5, 0, 1, 2, 1, 3, 0, 0, 0, 1, 0, 2, 0);
    assert(t1 * s1 == (8019) * mn(p, 1, 0, 5, 1, 1, 4, 1));
    lemma_tm(p, 2673, 1, 0, 5, 0, 1, 2, 1, 1, 0, 0, 0, 0, 2, 1, 0);
    assert(t1 * s2 == (2673) * mn(p, 1, 0, 5, 0, 3, 3, 1));
    lemma_tm(p, 2673, 1, 0, 5, 0, 1, 2, 1, -1, 0, 0, 0, 0, 0, 3, 1);
    assert(t1 * s3 == (-2673) * mn(p, 1, 0, 5, 0, 1, 5, 2));
    assert(t1 * q == (-2673) * mn(p, 1, 0, 5, 3, 1, 2, 1) + (8019) * mn(p, 1, 0, 5, 1, 1, 4, 1) + (2673) * mn(p, 1, 0, 5, 0, 3, 3, 1) + (-2673) * mn(p, 1, 0, 5, 0, 1, 5, 2));
    lemma_tm(p, 1, 0, 6, 0, 0, 3, 0, 0, -1, 0, 0, 0, 3, 0, 0, 0);
    assert(t2 * s0 == (-1) * mn(p, 0, 6, 0, 3, 3, 0, 0));
    lemma_tm(p, 1, 0, 6, 0, 0, 3, 0, 0, 3, 0, 0, 0, 1, 0, 2, 0);
    assert(t2 * s1 == (3) * mn(p, 0, 6, 0, 1, 3, 2, 0));
    lemma_tm(p, 1, 0, 6, 0, 0, 3, 0, 0, 1, 0, 0, 0, 0, 2, 1, 0);
    assert(t2 * s2 == (1) * mn(p, 0, 6, 0, 0, 5, 1, 0));
    lemma_tm(p, 1, 0, 6, 0, 0, 3, 0, 0, -1, 0, 0, 0, 0, 0, 3, 1);
    assert(t2 * s3 == (-1) * mn(p, 0, 6, 0, 0, 3, 3, 1));
    assert(t2 * q == (-1) * mn(p, 0, 6, 0, 3, 3, 0, 0) + (3) * mn(p, 0, 6, 0, 1, 3, 2, 0) + (1) * mn(p, 0, 6, 0, 0, 5, 1, 0) + (-1) * mn(p, 0, 6, 0, 0, 3, 3, 1));
    lemma_tm(p, 27, 0, 5, 1, 3, 0, 0, 1, -1, 0, 0, 0, 3, 0, 0, 0);
    assert(t3 * s0 == (-27) * mn(p, 0, 5, 1, 6, 0, 0, 1));
    lemma_tm(p, 27, 0, 5, 1, 3, 0, 0, 1, 3, 0, 0, 0, 1, 0, 2, 0);
    assert(t3 * s1 == (81) * mn(p, 0, 5, 1, 4, 0, 2, 1));
    lemma_tm(p, 27, 0, 5, 1, 3, 0, 0, 1, 1, 0, 0, 0, 0, 2, 1, 0);
    assert(t3 * s2 == (27) * mn(p, 0, 5, 1, 3, 2, 1, 1));
    lemma_tm(p, 27, 0, 5, 1, 3, 0, 0, 1, -1, 0, 0, 0, 0, 0, 3, 1);
    assert(t3 * s3 == (-27) * mn(p, 0, 5, 1, 3, 0, 3, 2));
    assert(t3 * q == (-27) * mn(p, 0, 5, 1, 6, 0, 0, 1) + (81) * mn(p, 0, 5, 1, 4, 0, 2, 1) + (27) * mn(p, 0, 5, 1, 3, 2, 1, 1) + (-27) * mn(p, 0, 5, 1, 3, 0, 3, 2));
    lemma_tm(p, -162, 0, 5, 1, 2, 0, 1, 0, -1, 0, 0, 0, 3, 0, 0, 0);
    assert(t4 * s0 == (162) * mn(p, 0, 5, 1, 5, 0, 1, 0));
    lemma_tm(p, -162, 0, 5, 1, 2, 0, 1, 0, 3, 0, 0, 0, 1, 0, 2, 0);
    assert(t4 * s1 == (-486) * mn(p, 0, 5, 1, 3, 0, 3, 0));
    lemma_tm(p, -162, 0, 5, 1, 2, 0, 1, 0, 1, 0, 0, 0, 0, 2, 1, 0);
    assert(t4 * s2 == (-162) * mn(p, 0, 5, 1, 2, 2, 2, 0));
    lemma_tm(p, -162, 0, 5, 1, 2, 0, 1, 0, -1, 0, 0, 0, 0, 0, 3, 1);
    assert(t4 * s3 == (162) * mn(p, 0, 5, 1, 2, 0, 4, 1));
    assert(t4 * q == (162) * mn(p, 0, 5, 1, 5, 0, 1, 0) + (-486) * mn(p, 0, 5, 1, 3, 0, 3, 0) + (-162) * mn(p, 0, 5, 1, 2, 2, 2, 0) + (162) * mn(p, 0, 5, 1, 2, 0, 4, 1));
    lemma_tm(p, -18, 0, 5, 1, 1, 2, 0, 0, -1, 0, 0, 0, 3, 0, 0, 0);
    assert(t5 * s0 == (18) * mn(p, 0, 5, 1, 4, 2, 0, 0));
    lemma_tm(p, -18, 0, 5, 1, 1, 2, 0, 0, 3, 0, 0, 0, 1, 0, 2, 0);
    assert(t5 * s1 == (-54) * mn(p, 0, 5, 1, 2, 2, 2, 0));
    lemma_tm(p, -18, 0, 5, 1, 1, 2, 0, 0, 1, 0, 0, 0, 0, 2, 1, 0);
    assert(t5 * s2 == (-18) * mn(p, 0, 5, 1, 1, 4, 1, 0));
    lemma_tm(p, -18, 0, 5, 1, 1, 2, 0, 0, -1, 0, 0, 0, 0, 0, 3, 1);
    assert(t5 * s3 == (18) * mn(p, 0, 5, 1, 1, 2, 3, 1));
    assert(t5 * q == (18) * mn(p, 0, 5, 1, 4, 2, 0, 0) + (-54) * mn(p, 0, 5, 1, 2, 2, 2, 0) + (-18) * mn(p, 0, 5, 1, 1, 4, 1, 0) + (18) * mn(p, 0, 5, 1, 1, 2, 3, 1));
    lemma_tm(p, 81, 0, 5, 1, 1, 0, 2, 1, -1, 0, 0, 0, 3, 0, 0, 0);
    assert(t6 * s0 == (-81) * mn(p, 0, 5, 1, 4, 0, 2, 1));
    lemma_tm(p, 81, 0, 5, 1, 1, 0, 2, 1, 3, 0, 0, 0, 1, 0, 2, 0);
    assert(t6 * s1 == (243) * mn(p, 0, 5, 1, 2, 0, 4, 1));
    lemma_tm(p, 81, 0, 5, 1, 1, 0, 2, 1, 1, 0, 0, 0, 0, 2, 1, 0);
    assert(t6 * s2 == (81) * mn(p, 0, 5, 1, 1, 2, 3, 1));
    lemma_tm(p, 81, 0, 5, 1, 1, 0, 2, 1, -1, 0, 0, 0, 0, 0, 3, 1);
    assert(t6 * s3 == (-81) * mn(p, 0, 5, 1, 1, 0, 5, 2));
    assert(t6 * q == (-81) * mn(p, 0, 5, 1, 4, 0, 2, 1) + (243) * mn(p, 0, 5, 1, 2, 0, 4, 1) + (81) * mn(p, 0, 5, 1, 1, 2, 3, 1) + (-81) * mn(p, 0, 5, 1, 1, 0, 5, 2));
    lemma_tm(p, 9, 0, 5, 1, 0, 2, 1, 1, -1, 0, 0, 0, 3, 0, 0, 0);
    assert(t7 * s0 == (-9) * mn(p, 0, 5, 1, 3, 2, 1, 1));
    lemma_tm(p, 9, 0, 5, 1, 0, 2, 1, 1, 3, 0, 0, 0, 1, 0, 2, 0);
    assert(t7 * s1 == (27) * mn(p, 0, 5, 1, 1, 2, 3, 1));
    lemma_tm(p, 9, 0, 5, 1, 0, 2, 1, 1, 1, 0, 0, 0, 0, 2, 1, 0);
    assert(t7 * s2 == (9) * mn(p, 0, 5, 1, 0, 4, 2, 1));
    lemma_tm(p, 9, 0, 5, 1, 0, 2, 1, 1, -1, 0, 0, 0, 0, 0, 3, 1);
    assert(t7 * s3 == (-9) * mn(p, 0, 5, 1, 0, 2, 4, 2));
    assert(t7 * q == (-9) * mn(p, 0, 5, 1, 3, 2, 1, 1) + (27) * mn(p, 0, 5, 1, 1, 2, 3, 1) + (9) * mn(p, 0, 5, 1, 0, 4, 2, 1) + (-9) * mn(p, 0, 5, 1, 0, 2, 4, 2));
    lemma_tm(p, -27, 0, 5, 1, 0, 0, 3, 2, -1, 0, 0, 0, 3, 0, 0, 0);
    assert(t8 * s0 == (27) * mn(p, 0, 5, 1, 3, 0, 3, 2));
    lemma_tm(p, -27, 0, 5, 1, 0, 0, 3, 2, 3, 0, 0, 0, 1, 0, 2, 0);
    assert(t8 * s1 == (-81) * mn(p, 0, 5, 1, 1, 0, 5, 2));
    lemma_tm(p, -27, 0, 5, 1, 0, 0, 3, 2, 1, 0, 0, 0, 0, 2, 1, 0);
    assert(t8 * s2 == (-27) * mn(p, 0, 5, 1, 0, 2, 4, 2));
    lemma_tm(p, -27, 0, 5, 1, 0, 0, 3, 2, -1, 0, 0, 0, 0, 0, 3, 1);
    assert(t8 * s3 == (27) * mn(p, 0, 5, 1, 0, 0, 6, 3));
    assert(t8 * q == (27) * mn(p, 0, 5, 1, 3, 0, 3, 2) + (-81) * mn(p, 0, 5, 1, 1, 0, 5, 2) + (-27) * mn(p, 0, 5, 1, 0, 2, 4, 2) + (27) * mn(p, 0, 5, 1, 0, 0, 6, 3));
    lemma_tm(p, 54, 0, 5, 1, 0, 0, 3, 0, -1, 0, 0, 0, 3, 0, 0, 0);
    assert(t9 * s0 == (-54) * mn(p, 0, 5, 1, 3, 0, 3, 0));
    lemma_tm(p, 54, 0, 5, 1, 0, 0, 3, 0, 3, 0, 0, 0, 1, 0, 2, 0);
    assert(t9 * s1 == (162) * mn(p, 0, 5, 1, 1, 0, 5, 0));
    lemma_tm(p, 54, 0, 5, 1, 0, 0, 3, 0, 1, 0, 0, 0, 0, 2, 1, 0);
    assert(t9 * s2 == (54) * mn(p, 0, 5, 1, 0, 2, 4, 0));
    lemma_tm(p, 54, 0, 5, 1, 0, 0, 3, 0, -1, 0, 0, 0, 0, 0, 3, 1);
    assert(t9 * s3 == (-54) * mn(p, 0, 5, 1, 0, 0, 6, 1));
    assert(t9 * q == (-54) * mn(p, 0, 5, 1, 3, 0, 3, 0) + (162) * mn(p, 0, 5, 1, 1, 0, 5, 0) + (54) * mn(p, 0, 5, 1, 0, 2, 4, 0) + (-54) * mn(p, 0, 5, 1, 0, 0, 6, 1));
    lemma_tm(p, -540, 0, 4, 2, 2, 1, 0, 0, -1, 0, 0, 0, 3, 0, 0, 0);
    assert(t10 * s0 == (540) * mn(p, 0, 4, 2, 5, 1, 0, 0));
    lemma_tm(p, -540, 0, 4, 2, 2, 1, 0, 0, 3, 0, 0, 0, 1, 0, 2, 0);
    assert(t10 * s1 == (-1620) * mn(p, 0, 4, 2, 3, 1, 2, 0));
    lemma_tm(p, -540, 0, 4, 2, 2, 1, 0, 0, 1, 0, 0, 0, 0, 2, 1, 0);
    assert(t10 * s2 == (-540) * mn(p, 0, 4, 2, 2, 3, 1, 0));
    lemma_tm(p, -540, 0, 4, 2, 2, 1, 0, 0, -1, 0, 0, 0, 0, 0, 3, 1);
    assert(t10 * s3 == (540) * mn(p, 0, 4, 2, 2, 1, 3, 1));
    assert(t10 * q == (540) * mn(p, 0, 4, 2, 5, 1, 0, 0) + (-1620) * mn(p, 0, 4, 2, 3, 1, 2, 0) + (-540) * mn(p, 0, 4, 2, 2, 3, 1, 0) + (540) * mn(p, 0, 4, 2, 2, 1, 3, 1));
    lemma_tm(p, 540, 0, 4, 2, 1, 1, 1, 1, -1, 0, 0, 0, 3, 0, 0, 0);
    assert(t11 * s0 == (-540) * mn(p, 0, 4, 2, 4, 1, 1, 1));
    lemma_tm(p, 540, 0, 4, 2, 1, 1, 1, 1, 3, 0, 0, 0, 1, 0, 2, 0);
    assert(t11 * s1 == (1620) * mn(p, 0, 4, 2, 2, 1, 3, 1));
    lemma_tm(p, 540, 0, 4, 2, 1, 1, 1, 1, 1, 0, 0, 0, 0, 2, 1, 0);
    assert(t11 * s2 == (540) * mn(p, 0, 4, 2, 1, 3, 2, 1));
    lemma_tm(p, 540, 0, 4, 2, 1, 1, 1, 1, -1, 0, 0, 0, 0, 0, 3, 1);
    assert(t11 * s3 == (-540) * mn(p, 0, 4, 2, 1, 1, 4, 2));
    assert(t11 * q == (-540) * mn(p, 0, 4, 2, 4, 1, 1, 1) + (1620) * mn(p, 0, 4, 2, 2, 1, 3, 1) + (540) * mn(p, 0, 4, 2, 1, 3, 2, 1) + (-540) * mn(p, 0, 4, 2, 1, 1, 4, 2));
    lemma_tm(p, 18, 0, 4, 2, 0, 3, 0, 1, -1, 0, 0, 0, 3, 0, 0, 0);
    assert(t12 * s0 == (-18) * mn(p, 0, 4, 2, 3, 3, 0, 1));
    lemma_tm(p, 18, 0, 4, 2, 0, 3, 0, 1, 3, 0, 0, 0, 1, 0, 2, 0);
    assert(t12 * s1 == (54) * mn(p, 0, 4, 2, 1, 3, 2, 1));
    lemma_tm(p, 18, 0, 4, 2, 0, 3, 0, 1, 1, 0, 0, 0, 0, 2, 1, 0);
    assert(t12 * s2 == (18) * mn(p, 0, 4, 2, 0, 5, 1, 1));
    lemma_tm(p, 18, 0, 4, 2, 0, 3, 0, 1, -1, 0, 0, 0, 0, 0, 3, 1);
    assert(t12 * s3 == (-18) * mn(p, 0, 4, 2, 0, 3, 3, 2));
    assert(t12 * q == (-18) * mn(p, 0, 4, 2, 3, 3, 0, 1) + (54) * mn(p, 0, 4, 2, 1, 3, 2, 1) + (18) * mn(p, 0, 4, 2, 0, 5, 1, 1) + (-18) * mn(p, 0, 4, 2, 0, 3, 3, 2));
    lemma_tm(p, -135, 0, 4, 2, 0, 1, 2, 2, -1, 0, 0, 0, 3, 0, 0, 0);
    assert(t13 * s0 == (135) * mn(p, 0, 4, 2, 3, 1, 2, 2));
    lemma_tm(p, -135, 0, 4, 2, 0, 1, 2, 2, 3, 0, 0, 0, 1, 0, 2, 0);
    assert(t13 * s1 == (-405) * mn(p, 0, 4, 2, 1, 1, 4, 2));
    lemma_tm(p, -135, 0, 4, 2, 0, 1, 2, 2, 1, 0, 0, 0, 0, 2, 1, 0);
    assert(t13 * s2 == (-135) * mn(p, 0, 4, 2, 0, 3, 3, 2));
    lemma_tm(p, -135, 0, 4, 2, 0, 1, 2, 2, -1, 0, 0, 0, 0, 0, 3, 1);
    assert(t13 * s3 == (135) * mn(p, 0, 4, 2, 0, 1, 5, 3));
    assert(t13 * q == (135) * mn(p, 0, 4, 2, 3, 1, 2, 2) + (-405) * mn(p, 0, 4, 2, 1, 1, 4, 2) + (-135) * mn(p, 0, 4, 2, 0, 3, 3, 2) + (135) * mn(p, 0, 4, 2, 0, 1, 5, 3));
    lemma_tm(p, -270, 0, 3, 3, 3, 0, 0, 2, -1, 0, 0, 0, 3, 0, 0, 0);
    assert(t14 * s0 == (270) * mn(p, 0, 3, 3, 6, 0, 0, 2));
    lemma_tm(p, -270, 0, 3, 3, 3, 0, 0, 2, 3, 0, 0, 0, 1, 0, 2, 0);
    assert(t14 * s1 == (-810) * mn(p, 0, 3, 3, 4, 0, 2, 2));
    lemma_tm(p, -270, 0, 3, 3, 3, 0, 0, 2, 1, 0, 0, 0, 0, 2, 1, 0);
    assert(t14 * s2 == (-270) * mn(p, 0, 3, 3, 3, 2, 1, 2));
    lemma_tm(p, -270, 0, 3, 3, 3, 0, 0, 2, -1, 0, 0, 0, 0, 0, 3, 1);
    assert(t14 * s3 == (270) * mn(p, 0, 3, 3, 3, 0, 3, 3));
    assert(t14 * q == (270) * mn(p, 0, 3, 3, 6, 0, 0, 2) + (-810) * mn(p, 0, 3, 3, 4, 0, 2, 2) + (-270) * mn(p, 0, 3, 3, 3, 2, 1, 2) + (270) * mn(p, 0, 3, 3, 3, 0, 3, 3));
    lemma_tm(p, -1188, 0, 3, 3, 3, 0, 0, 0, -1, 0, 0, 0, 3, 0, 0, 0);
    assert(t15 * s0 == (1188) * mn(p, 0, 3, 3, 6, 0, 0, 0));
    lemma_tm(p, -1188, 0, 3, 3, 3, 0, 0, 0, 3, 0, 0, 0, 1, 0, 2, 0);
    assert(t15 * s1 == (-3564) * mn(p, 0, 3, 3, 4, 0, 2, 0));
    lemma_tm(p, -1188, 0, 3, 3, 3, 0, 0, 0, 1, 0, 0, 0, 0, 2, 1, 0);
    assert(t15 * s2 == (-1188) * mn(p, 0, 3, 3, 3, 2, 1, 0));
    lemma_tm(p, -1188, 0, 3, 3, 3, 0, 0, 0, -1, 0, 0, 0, 0, 0, 3, 1);
    assert(t15 * s3 == (1188) * mn(p, 0, 3, 3, 3, 0, 3, 1));
    assert(t15 * q == (1188) * mn(p, 0, 3, 3, 6, 0, 0, 0) + (-3564) * mn(p, 0, 3, 3, 4, 0, 2, 0) + (-1188) * mn(p, 0, 3, 3, 3, 2, 1, 0) + (1188) * mn(p, 0, 3, 3, 3, 0, 3, 1));
    lemma_tm(p, 3402, 0, 3, 3, 2, 0, 1, 1, -1, 0, 0, 0, 3, 0, 0, 0);
    assert(t16 * s0 == (-3402) * mn(p, 0, 3, 3, 5, 0, 1, 1));
    lemma_tm(p, 3402, 0, 3, 3, 2, 0, 1, 1, 3, 0, 0, 0, 1, 0, 2, 0);
    assert(t16 * s1 == (10206) * mn(p, 0, 3, 3, 3, 0, 3, 1));
    lemma_tm(p, 3402, 0, 3, 3, 2, 0, 1, 1, 1, 0, 0, 0, 0, 2, 1, 0);
    assert(t16 * s2 == (3402) * mn(p, 0, 3, 3, 2, 2, 2, 1));
    lemma_tm(p, 3402, 0, 3, 3, 2, 0, 1, 1, -1, 0, 0, 0, 0, 0, 3, 1);
    assert(t16 * s3 == (-3402) * mn(p, 0, 3, 3, 2, 0, 4, 2));
    assert(t16 * q == (-3402) * mn(p, 0, 3, 3, 5, 0, 1, 1) + (10206) * mn(p, 0, 3, 3, 3, 0, 3, 1) + (3402) * mn(p, 0, 3, 3, 2, 2, 2, 1) + (-3402) * mn(p, 0, 3, 3, 2, 0, 4, 2));
    lemma_tm(p, 378, 0, 3, 3, 1, 2, 0, 1, -1, 0, 0, 0, 3, 0, 0, 0);
    assert(t17 * s0 == (-378) * mn(p, 0, 3, 3, 4, 2, 0, 1));
    lemma_tm(p, 378, 0, 3, 3, 1, 2, 0, 1, 3, 0, 0, 0, 1, 0, 2, 0);
    assert(t17 * s1 == (1134) * mn(p, 0, 3, 3, 2, 2, 2, 1));
    lemma_tm(p, 378, 0, 3, 3, 1, 2, 0, 1, 1, 0, 0, 0, 0, 2, 1, 0);
    assert(t17 * s2 == (378) * mn(p, 0, 3, 3, 1, 4, 1, 1));
    lemma_tm(p, 378, 0, 3, 3, 1, 2, 0, 1, -1, 0, 0, 0, 0, 0, 3, 1);
    assert(t17 * s3 == (-378) * mn(p, 0, 3, 3, 1, 2, 3, 2));
    assert(t17 * q == (-378) * mn(p, 0, 3, 3, 4, 2, 0, 1) + (1134) * mn(p, 0, 3, 3, 2, 2, 2, 1) + (378) * mn(p, 0, 3, 3, 1, 4, 1, 1) + (-378) * mn(p, 0, 3, 3, 1, 2, 3, 2));
    lemma_tm(p, -972, 0, 3, 3, 1, 0, 2, 2, -1, 0, 0, 0, 3, 0, 0, 0);
    assert(t18 * s0 == (972) * mn(p, 0, 3, 3, 4, 0, 2, 2));
    lemma_tm(p, -972, 0, 3, 3, 1, 0, 2, 2, 3, 0, 0, 0, 1, 0, 2, 0);
    assert(t18 * s1 == (-2916) * mn(p, 0, 3, 3, 2, 0, 4, 2));
    lemma_tm(p, -972, 0, 3, 3, 1, 0, 2, 2, 1, 0, 0, 0, 0, 2, 1, 0);
    assert(t18 * s2 == (-972) * mn(p, 0, 3, 3, 1, 2, 3, 2));
    lemma_tm(p, -972, 0, 3, 3, 1, 0, 2, 2, -1, 0, 0, 0, 0, 0, 3, 1);
    assert(t18 * s3 == (972) * mn(p, 0, 3, 3, 1, 0, 5, 3));
    assert(t18 * q == (972) * mn(p, 0, 3, 3, 4, 0, 2, 2) + (-2916) * mn(p, 0, 3, 3, 2, 0, 4, 2) + (-972) * mn(p, 0, 3, 3, 1, 2, 3, 2) + (972) * mn(p, 0, 3, 3, 1, 0, 5, 3));
    lemma_tm(p, -2916, 0, 3, 3, 1, 0, 2, 0, -1, 0, 0, 0, 3, 0, 0, 0);
    assert(t19 * s0 == (2916) * mn(p, 0, 3, 3, 4, 0, 2, 0));
    lemma_tm(p, -2916, 0, 3, 3, 1, 0, 2, 0, 3, 0, 0, 0, 1, 0, 2, 0);
    assert(t19 * s1 == (-8748) * mn(p, 0, 3, 3, 2, 0, 4, 0));
    lemma_tm(p, -2916, 0, 3, 3, 1, 0, 2, 0, 1, 0, 0, 0, 0, 2, 1, 0);
    assert(t19 * s2 == (-2916) * mn(p, 0, 3, 3, 1, 2, 3, 0));
    lemma_tm(p, -2916, 0, 3, 3, 1, 0, 2, 0, -1, 0, 0, 0, 0, 0, 3, 1);
    assert(t19 * s3 == (2916) * mn(p, 0, 3, 3, 1, 0, 5, 1));
    assert(t19 * q == (2916) * mn(p, 0, 3, 3, 4, 0, 2, 0) + (-8748) * mn(p, 0, 3, 3, 2, 0, 4, 0) + (-2916) * mn(p, 0, 3, 3, 1, 2, 3, 0) + (2916) * mn(p, 0, 3, 3, 1, 0, 5, 1));
    lemma_tm(p, -162, 0, 3, 3, 0, 2, 1, 2, -1, 0, 0, 0, 3, 0, 0, 0);
    assert(t20 * s0 == (162) * mn(p, 0, 3, 3, 3, 2, 1, 2));
    lemma_tm(p, -162, 0, 3, 3, 0, 2, 1, 2, 3, 0, 0, 0, 1, 0, 2, 0);
    assert(t20 * s1 == (-486) * mn(p, 0, 3, 3, 1, 2, 3, 2));
    lemma_tm(p, -162, 0, 3, 3, 0, 2, 1, 2, 1, 0, 0, 0, 0, 2, 1, 0);
    assert(t20 * s2 == (-162) * mn(p, 0, 3, 3, 0, 4, 2, 2));
    lemma_tm(p, -162, 0, 3, 3, 0, 2, 1, 2, -1, 0, 0, 0, 0, 0, 3, 1);
    assert(t20 * s3 == (162) * mn(p, 0, 3, 3, 0, 2, 4, 3));
    assert(t20 * q == (162) * mn(p, 0, 3, 3, 3, 2, 1, 2) + (-486) * mn(p, 0, 3, 3, 1, 2, 3, 2) + (-162) * mn(p, 0, 3, 3, 0, 4, 2, 2) + (162) * mn(p, 0, 3, 3, 0, 2, 4, 3));
    lemma_tm(p, -108, 0, 3, 3, 0, 2, 1, 0, -1, 0, 0, 0, 3, 0, 0, 0);
    assert(t21 * s0 == (108) * mn(p, 0, 3, 3, 3, 2, 1, 0));
    lemma_tm(p, -108, 0, 3, 3, 0, 2, 1, 0, 3, 0, 0, 0, 1, 0, 2, 0);
    assert(t21 * s1 == (-324) * mn(p, 0, 3, 3, 1, 2, 3, 0));
    lemma_tm(p, -108, 0, 3, 3, 0, 2, 1, 0, 1, 0, 0, 0, 0, 2, 1, 0);
    assert(t21 * s2 == (-108) * mn(p, 0, 3, 3, 0, 4, 2, 0));
    lemma_tm(p, -108, 0, 3, 3, 0, 2, 1, 0, -1, 0, 0, 0, 0, 0, 3, 1);
    assert(t21 * s3 == (108) * mn(p, 0, 3, 3, 0, 2, 4, 1));
    assert(t21 * q == (108) * mn(p, 0, 3, 3, 3, 2, 1, 0) + (-324) * mn(p, 0, 3, 3, 1, 2, 3, 0) + (-108) * mn(p, 0, 3, 3, 0, 4, 2, 0) + (108) * mn(p, 0, 3, 3, 0, 2, 4, 1));
    lemma_tm(p, 54, 0, 3, 3, 0, 0, 3, 3, -1, 0, 0, 0, 3, 0, 0, 0);
    assert(t22 * s0 == (-54) * mn(p, 0, 3, 3, 3, 0, 3, 3));
    lemma_tm(p, 54, 0, 3, 3, 0, 0, 3, 3, 3, 0, 0, 0, 1, 0, 2, 0);
    assert(t22 * s1 == (162) * mn(p, 0, 3, 3, 1, 0, 5, 3));
    lemma_tm(p, 54, 0, 3, 3, 0, 0, 3, 3, 1, 0, 0, 0, 0, 2, 1, 0);
    assert(t22 * s2 == (54) * mn(p, 0, 3, 3, 0, 2, 4, 3));
    lemma_tm(p, 54, 0, 3, 3, 0, 0, 3, 3, -1, 0, 0, 0, 0, 0, 3, 1);
    assert(t22 * s3 == (-54) * mn(p, 0, 3, 3, 0, 0, 6, 4));
    assert(t22 * q == (-54) * mn(p, 0, 3, 3, 3, 0, 3, 3) + (162) * mn(p, 0, 3, 3, 1, 0, 5, 3) + (54) * mn(p, 0, 3, 3, 0, 2, 4, 3) + (-54) * mn(p, 0, 3, 3, 0, 0, 6, 4));
    lemma_tm(p, 918, 0, 3, 3, 0, 0, 3, 1, -1, 0, 0, 0, 3, 0, 0, 0);
    assert(t23 * s0 == (-918) * mn(p, 0, 3, 3, 3, 0, 3, 1));
    lemma_tm(p, 918, 0, 3, 3, 0, 0, 3, 1, 3, 0, 0, 0, 1, 0, 2, 0);
    assert(t23 * s1 == (2754) * mn(p, 0, 3, 3, 1, 0, 5, 1));
    lemma_tm(p, 918, 0, 3, 3, 0, 0, 3, 1, 1, 0, 0, 0, 0, 2, 1, 0);
    assert(t23 * s2 == (918) * mn(p, 0, 3, 3, 0, 2, 4, 1));
    lemma_tm(p, 918, 0, 3, 3, 0, 0, 3, 1, -1, 0, 0, 0, 0, 0, 3, 1);
    assert(t23 * s3 == (-918) * mn(p, 0, 3, 3, 0, 0, 6, 2));
    assert(t23 * q == (-918) * mn(p, 0, 3, 3, 3, 0, 3, 1) + (2754) * mn(p, 0, 3, 3, 1, 0, 5, 1) + (918) * mn(p, 0, 3, 3, 0, 2, 4, 1) + (-918) * mn(p, 0, 3, 3, 0, 0, 6, 2));
    lemma_tm(p, 2187, 0, 2, 4, 2, 1, 0, 1, -1, 0, 0, 0, 3, 0, 0, 0);
    assert(t24 * s0 == (-2187) * mn(p, 0, 2, 4, 5, 1, 0, 1));
    lemma_tm(p, 2187, 0, 2, 4, 2, 1, 0, 1, 3, 0, 0, 0, 1, 0, 2, 0);
    assert(t24 * s1 == (6561) * mn(p, 0, 2, 4, 3, 1, 2, 1));
    lemma_tm(p, 2187, 0, 2, 4, 2, 1, 0, 1, 1, 0, 0, 0, 0, 2, 1, 0);
    assert(t24 * s2 == (2187) * mn(p, 0, 2, 4, 2, 3, 1, 1));
    lemma_tm(p, 2187, 0, 2, 4, 2, 1, 0, 1, -1, 0, 0, 0, 0, 0, 3, 1);
    assert(t24 * s3 == (-2187) * mn(p, 0, 2, 4, 2, 1, 3, 2));
    assert(t24 * q == (-2187) * mn(p, 0, 2, 4, 5, 1, 0, 1) + (6561) * mn(p, 0, 2, 4, 3, 1, 2, 1) + (2187) * mn(p, 0, 2, 4, 2, 3, 1, 1) + (-2187) * mn(p, 0, 2, 4, 2, 1, 3, 2));
    lemma_tm(p, -1296, 0, 2, 4, 1, 1, 1, 2, -1, 0, 0, 0, 3, 0, 0, 0);
    assert(t25 * s0 == (1296) * mn(p, 0, 2, 4, 4, 1, 1, 2));
    lemma_tm(p, -1296, 0, 2, 4, 1, 1, 1, 2, 3, 0, 0, 0, 1, 0, 2, 0);
    assert(t25 * s1 == (-3888) * mn(p, 0, 2, 4, 2, 1, 3, 2));
    lemma_tm(p, -1296, 0, 2, 4, 1, 1, 1, 2, 1, 0, 0, 0, 0, 2, 1, 0);
    assert(t25 * s2 == (-1296) * mn(p, 0, 2, 4, 1, 3, 2, 2));
    lemma_tm(p, -1296, 0, 2, 4, 1, 1, 1, 2, -1, 0, 0, 0, 0, 0, 3, 1);
    assert(t25 * s3 == (1296) * mn(p, 0, 2, 4, 1, 1, 4, 3));
    assert(t25 * q == (1296) * mn(p, 0, 2, 4, 4, 1, 1, 2) + (-3888) * mn(p, 0, 2, 4, 2, 1, 3, 2) + (-1296) * mn(p, 0, 2, 4, 1, 3, 2, 2) + (1296) * mn(p, 0, 2, 4, 1, 1, 4, 3));
    lemma_tm(p, -3564, 0, 2, 4, 1, 1, 1, 0, -1, 0, 0, 0, 3, 0, 0, 0);
    assert(t26 * s0 == (3564) * mn(p, 0, 2, 4, 4, 1, 1, 0));
    lemma_tm(p, -3564, 0, 2, 4, 1, 1, 1, 0, 3, 0, 0, 0, 1, 0, 2, 0);
    assert(t26 * s1 == (-10692) * mn(p, 0, 2, 4, 2, 1, 3, 0));
    lemma_tm(p, -3564, 0, 2, 4, 1, 1, 1, 0, 1, 0, 0, 0, 0, 2, 1, 0);
    assert(t26 * s2 == (-3564) * mn(p, 0, 2, 4, 1, 3, 2, 0));
    lemma_tm(p, -3564, 0, 2, 4, 1, 1, 1, 0, -1, 0, 0, 0, 0, 0, 3, 1);
    assert(t26 * s3 == (3564) * mn(p, 0, 2, 4, 1, 1, 4, 1));
    assert(t26 * q == (3564) * mn(p, 0, 2, 4, 4, 1, 1, 0) + (-10692) * mn(p, 0, 2, 4, 2, 1, 3, 0) + (-3564) * mn(p, 0, 2, 4, 1, 3, 2, 0) + (3564) * mn(p, 0, 2, 4, 1, 1, 4, 1));
    lemma_tm(p, -27, 0, 2, 4, 0, 3, 0, 2, -1, 0, 0, 0, 3, 0, 0, 0);
    assert(t27 * s0 == (27) * mn(p, 0, 2, 4, 3, 3, 0, 2));
    lemma_tm(p, -27, 0, 2, 4, 0, 3, 0, 2, 3, 0, 0, 0, 1, 0, 2, 0);
    assert(t27 * s1 == (-81) * mn(p, 0, 2, 4, 1, 3, 2, 2));
    lemma_tm(p, -27, 0, 2, 4, 0, 3, 0, 2, 1, 0, 0, 0, 0, 2, 1, 0);
    assert(t27 * s2 == (-27) * mn(p, 0, 2, 4, 0, 5, 1, 2));
    lemma_tm(p, -27, 0, 2, 4, 0, 3, 0, 2, -1, 0, 0, 0, 0, 0, 3, 1);
    assert(t27 * s3 == (27) * mn(p, 0, 2, 4, 0, 3, 3, 3));
    assert(t27 * q == (27) * mn(p, 0, 2, 4, 3, 3, 0, 2) + (-81) * mn(p, 0, 2, 4, 1, 3, 2, 2) + (-27) * mn(p, 0, 2, 4, 0, 5, 1, 2) + (27) * mn(p, 0, 2, 4, 0, 3, 3, 3));
    lemma_tm(p, 27, 0, 2, 4, 0, 3, 0, 0, -1, 0, 0, 0, 3, 0, 0, 0);
    assert(t28 * s0 == (-27) * mn(p, 0, 2, 4, 3, 3, 0, 0));
    lemma_tm(p, 27, 0, 2, 4, 0, 3, 0, 0, 3, 0, 0, 0, 1, 0, 2, 0);
    assert(t28 * s1 == (81) * mn(p, 0, 2, 4, 1, 3, 2, 0));
    lemma_tm(p, 27, 0, 2, 4, 0, 3, 0, 0, 1, 0, 0, 0, 0, 2, 1, 0);
    assert(t28 * s2 == (27) * mn(p, 0, 2, 4, 0, 5, 1, 0));
    lemma_tm(p, 27, 0, 2, 4, 0, 3, 0, 0, -1, 0, 0, 0, 0, 0, 3, 1);
    assert(t28 * s3 == (-27) * mn(p, 0, 2, 4, 0, 3, 3, 1));
    assert(t28 * q == (-27) * mn(p, 0, 2, 4, 3, 3, 0, 0) + (81) * mn(p, 0, 2, 4, 1, 3, 2, 0) + (27) * mn(p, 0, 2, 4, 0, 5, 1, 0) + (-27) * mn(p, 0, 2, 4, 0, 3, 3, 1));
    lemma_tm(p, 162, 0, 2, 4, 0, 1, 2, 3, -1, 0, 0, 0, 3, 0, 0, 0);
    assert(t29 * s0 == (-162) * mn(p, 0, 2, 4, 3, 1, 2, 3));
    lemma_tm(p, 162, 0, 2, 4, 0, 1, 2, 3, 3, 0, 0, 0, 1, 0, 2, 0);
    assert(t29 * s1 == (486) * mn(p, 0, 2, 4, 1, 1, 4, 3));
    lemma_tm(p, 162, 0, 2, 4, 0, 1, 2, 3, 1, 0, 0, 0, 0, 2, 1, 0);
    assert(t29 * s2 == (162) * mn(p, 0, 2, 4, 0, 3, 3, 3));
    lemma_tm(p, 162, 0, 2, 4, 0, 1, 2, 3, -1, 0, 0, 0, 0, 0, 3, 1);
    assert(t29 * s3 == (-162) * mn(p, 0, 2, 4, 0, 1, 5, 4));
    assert(t29 * q == (-162) * mn(p, 0, 2, 4, 3, 1, 2, 3) + (486) * mn(p, 0, 2, 4, 1, 1, 4, 3) + (162) * mn(p, 0, 2, 4, 0, 3, 3, 3) + (-162) * mn(p, 0, 2, 4, 0, 1, 5, 4));
    lemma_tm(p, 1539, 0, 2, 4, 0, 1, 2, 1, -1, 0, 0, 0, 3, 0, 0, 0);
    assert(t30 * s0 == (-1539) * mn(p, 0, 2, 4, 3, 1, 2, 1));
    lemma_tm(p, 1539, 0, 2, 4, 0, 1, 2, 1, 3, 0, 0, 0, 1, 0, 2, 0);
    assert(t30 * s1 == (4617) * mn(p, 0, 2, 4, 1, 1, 4, 1));
    lemma_tm(p, 1539, 0, 2, 4, 0, 1, 2, 1, 1, 0, 0, 0, 0, 2, 1, 0);
    assert(t30 * s2 == (1539) * mn(p, 0, 2, 4, 0, 3, 3, 1));
    lemma_tm(p, 1539, 0, 2, 4, 0, 1, 2, 1, -1, 0, 0, 0, 0, 0, 3, 1);
    assert(t30 * s3 == (-1539) * mn(p, 0, 2, 4, 0, 1, 5, 2));
    assert(t30 * q == (-1539) * mn(p, 0, 2, 4, 3, 1, 2, 1) + (4617) * mn(p, 0, 2, 4, 1, 1, 4, 1) + (1539) * mn(p, 0, 2, 4, 0, 3, 3, 1) + (-1539) * mn(p, 0, 2, 4, 0, 1, 5, 2));
    lemma_tm(p, 243, 0, 1, 5, 3, 0, 0, 3, -1, 0, 0, 0, 3, 0, 0, 0);
    assert(t31 * s0 == (-243) * mn(p, 0, 1, 5, 6, 0, 0, 3));
    lemma_tm(p, 243, 0, 1, 5, 3, 0, 0, 3, 3, 0, 0, 0, 1, 0, 2, 0);
    assert(t31 * s1 == (729) * mn(p, 0, 1, 5, 4, 0, 2, 3));
    lemma_tm(p, 243, 0, 1, 5, 3, 0, 0, 3, 1, 0, 0, 0, 0, 2, 1, 0);
    assert(t31 * s2 == (243) * mn(p, 0, 1, 5, 3, 2, 1, 3));
    lemma_tm(p, 243, 0, 1, 5, 3, 0, 0, 3, -1, 0, 0, 0, 0, 0, 3, 1);
    assert(t31 * s3 == (-243) * mn(p, 0, 1, 5, 3, 0, 3, 4));
    assert(t31 * q == (-243) * mn(p, 0, 1, 5, 6, 0, 0, 3) + (729) * mn(p, 0, 1, 5, 4, 0, 2, 3) + (243) * mn(p, 0, 1, 5, 3, 2, 1, 3) + (-243) * mn(p, 0, 1, 5, 3, 0, 3, 4));
    assert(pp31 * q == (((((((-972) * mn(p, 1, 0, 5, 3, 1, 2, 3) + (-2673) * mn(p, 1, 0, 5, 3, 1, 2, 1)) + ((2916) * mn(p, 1, 0, 5, 1, 1, 4, 3) + ((8019) * mn(p, 1, 0, 5, 1, 1, 4, 1) + (972) * mn(p, 1, 0, 5, 0, 3, 3, 3)))) + (((2673) * mn(p, 1, 0, 5, 0, 3, 3, 1) + ((-972) * mn(p, 1, 0, 5, 0, 1, 5, 4) + (-2673) * mn(p, 1, 0, 5, 0, 1, 5, 2))) + ((-1) * mn(p, 0, 6, 0, 3, 3, 0, 0) + ((3) * mn(p, 0, 6, 0, 1, 3, 2, 0) + (1) * mn(p, 0, 6, 0, 0, 5, 1, 0))))) + ((((-1) * mn(p, 0, 6, 0, 0, 3, 3, 1) + (-27) * mn(p, 0, 5, 1, 6, 0, 0, 1)) + ((162) * mn(p, 0, 5, 1, 5, 0, 1, 0) + ((18) * mn(p, 0, 5, 1, 4, 2, 0, 0) + (18) * mn(p, 0, 5, 1, 3, 2, 1, 1)))) + (((-540) * mn(p, 0, 5, 1, 3, 0, 3, 0) + ((-216) * mn(p, 0, 5, 1, 2, 2, 2, 0) + (405) * mn(p, 0, 5, 1, 2, 0, 4, 1))) + ((-18) * mn(p, 0, 5, 1, 1, 4, 1, 0) + ((126) * mn(p, 0, 5, 1, 1, 2, 3, 1) + (-162) * mn(p, 0, 5, 1, 1, 0, 5, 2)))))) + (((((162) * mn(p, 0, 5, 1, 1, 0, 5, 0) + (9) * mn(p, 0, 5, 1, 0, 4, 2, 1)) + ((-36) * mn(p, 0, 5, 1, 0, 2, 4, 2) + ((54) * mn(p, 0, 5, 1, 0, 2, 4, 0) + (27) * mn(p, 0, 5, 1, 0, 0, 6, 3)))) + (((-54) * mn(p, 0, 5, 1, 0, 0, 6, 1) + ((540) * mn(p, 0, 4, 2, 5, 1, 0, 0) + (-540) * mn(p, 0, 4, 2, 4, 1, 1, 1))) + ((-18) * mn(p, 0, 4, 2, 3, 3, 0, 1) + ((135) * mn(p, 0, 4, 2, 3, 1, 2, 2) + (-1620) * mn(p, 0, 4, 2, 3, 1, 2, 0))))) + ((((-540) * mn(p, 0, 4, 2, 2, 3, 1, 0) + (2160) * mn(p, 0, 4, 2, 2, 1, 3, 1)) + ((594) * mn(p, 0, 4, 2, 1, 3, 2, 1) + ((-945) * mn(p, 0, 4, 2, 1, 1, 4, 2) + (18) * mn(p, 0, 4, 2, 0, 5, 1, 1)))) + (((-153) * mn(p, 0, 4, 2, 0, 3, 3, 2) + ((135) * mn(p, 0, 4, 2, 0, 1, 5, 3) + (270) * mn(p, 0, 3, 3, 6, 0, 0, 2))) + ((1188) * mn(p, 0, 3, 3, 6, 0, 0, 0) + ((-3402) * mn(p, 0, 3, 3, 5, 0, 1, 1) + (-378) * mn(p, 0, 3, 3, 4, 2, 0, 1))))))) + ((((((162) * mn(p, 0, 3, 3, 4, 0, 2, 2) + (-648) * mn(p, 0, 3, 3, 4, 0, 2, 0)) + ((-108) * mn(p, 0, 3, 3, 3, 2, 1, 2) + ((-1080) * mn(p, 0, 3, 3, 3, 2, 1, 0) + (216) * mn(p, 0, 3, 3, 3, 0, 3, 3)))) + (((10476) * mn(p, 0, 3, 3, 3, 0, 3, 1) + ((4536) * mn(p, 0, 3, 3, 2, 2, 2, 1) + (-6318) * mn(p, 0, 3, 3, 2, 0, 4, 2))) + ((-8748) * mn(p, 0, 3, 3, 2, 0, 4, 0) + ((378) * mn(p, 0, 3, 3, 1, 4, 1, 1) + (-1836) * mn(p, 0, 3, 3, 1, 2, 3, 2))))) + ((((-3240) * mn(p, 0, 3, 3, 1, 2, 3, 0) + (1134) * mn(p, 0, 3, 3, 1, 0, 5, 3)) + ((5670) * mn(p, 0, 3, 3, 1, 0, 5, 1) + ((-162) * mn(p, 0, 3, 3, 0, 4, 2, 2) + (-108) * mn(p, 0, 3, 3, 0, 4, 2, 0)))) + (((216) * mn(p, 0, 3, 3, 0, 2, 4, 3) + ((1026) * mn(p, 0, 3, 3, 0, 2, 4, 1) + (-54) * mn(p, 0, 3, 3, 0, 0, 6, 4))) + ((-918) * mn(p, 0, 3, 3, 0, 0, 6, 2) + ((-2187) * mn(p, 0, 2, 4, 5, 1, 0, 1) + (1296) * mn(p, 0, 2, 4, 4, 1, 1, 2)))))) + (((((3564) * mn(p, 0, 2, 4, 4, 1, 1, 0) + (27) * mn(p, 0, 2, 4, 3, 3, 0, 2)) + ((-27) * mn(p, 0, 2, 4, 3, 3, 0, 0) + ((-162) * mn(p, 0, 2, 4, 3, 1, 2, 3) + (5022) * mn(p, 0, 2, 4, 3, 1, 2, 1)))) + (((2187) * mn(p, 0, 2, 4, 2, 3, 1, 1) + ((-6075) * mn(p, 0, 2, 4, 2, 1, 3, 2) + (-10692) * mn(p, 0, 2, 4, 2, 1, 3, 0))) + ((-1377) * mn(p, 0, 2, 4, 1, 3, 2, 2) + ((-3483) * mn(p, 0, 2, 4, 1, 3, 2, 0) + (1782) * mn(p, 0, 2, 4, 1, 1, 4, 3))))) + ((((8181) * mn(p, 0, 2, 4, 1, 1, 4, 1) + (-27) * mn(p, 0, 2, 4, 0, 5, 1, 2)) + ((27) * mn(p, 0, 2, 4, 0, 5, 1, 0) + ((189) * mn(p, 0, 2, 4, 0, 3, 3, 3) + (1512) * mn(p, 0, 2, 4, 0, 3, 3, 1)))) + (((-162) * mn(p, 0, 2, 4, 0, 1, 5, 4) + ((-1539) * mn(p, 0, 2, 4, 0, 1, 5, 2) + (-243) * mn(p, 0, 1, 5, 6, 0, 0, 3))) + ((729) * mn(p, 0, 1, 5, 4, 0, 2, 3) + ((243) * mn(p, 0, 1, 5, 3, 2, 1, 3) + (-243) * mn(p, 0, 1, 5, 3, 0, 3, 4)))))))));
    assert(pp31 == ((((((972) * mn(p, 1, 0, 5, 0, 1, 2, 3) + (2673) * mn(p, 1, 0, 5, 0, 1, 2, 1)) + ((1) * mn(p, 0, 6, 0, 0, 3, 0, 0) + (27) * mn(p, 0, 5, 1, 3, 0, 0, 1))) + (((-162) * mn(p, 0, 5, 1, 2, 0, 1, 0) + (-18) * mn(p, 0, 5, 1, 1, 2, 0, 0)) + ((81) * mn(p, 0, 5, 1, 1, 0, 2, 1) + (9) * mn(p, 0, 5, 1, 0, 2, 1, 1)))) + ((((-27) * mn(p, 0, 5, 1, 0, 0, 3, 2) + (54) * mn(p, 0, 5, 1, 0, 0, 3, 0)) + ((-540) * mn(p, 0, 4, 2, 2, 1, 0, 0) + (540) * mn(p, 0, 4, 2, 1, 1, 1, 1))) + (((18) * mn(p, 0, 4, 2, 0, 3, 0, 1) + (-135) * mn(p, 0, 4, 2, 0, 1, 2, 2)) + ((-270) * mn(p, 0, 3, 3, 3, 0, 0, 2) + (-1188) * mn(p, 0, 3, 3, 3, 0, 0, 0))))) + (((((3402) * mn(p, 0, 3, 3, 2, 0, 1, 1) + (378) * mn(p, 0, 3, 3, 1, 2, 0, 1)) + ((-972) * mn(p, 0, 3, 3, 1, 0, 2, 2) + (-2916) * mn(p, 0, 3, 3, 1, 0, 2, 0))) + (((-162) * mn(p, 0, 3, 3, 0, 2, 1, 2) + (-108) * mn(p, 0, 3, 3, 0, 2, 1, 0)) + ((54) * mn(p, 0, 3, 3, 0, 0, 3, 3) + (918) * mn(p, 0, 3, 3, 0, 0, 3, 1)))) + ((((2187) * mn(p, 0, 2, 4, 2, 1, 0, 1) + (-1296) * mn(p, 0, 2, 4, 1, 1, 1, 2)) + ((-3564) * mn(p, 0, 2, 4, 1, 1, 1, 0) + (-27) * mn(p, 0, 2, 4, 0, 3, 0, 2))) + (((27) * mn(p, 0, 2, 4, 0, 3, 0, 0) + (162) * mn(p, 0, 2, 4, 0, 1, 2, 3)) + ((1539) * mn(p, 0, 2, 4, 0, 1, 2, 1) + (243) * mn(p, 0, 1, 5, 3, 0, 0, 3)))))));
    assert(q == (((-1) * mn(p, 0, 0, 0, 3, 0, 0, 0) + (3) * mn(p, 0, 0, 0, 1, 0, 2, 0)) + ((1) * mn(p, 0, 0, 0, 0, 2, 1, 0) + (-1) * mn(p, 0, 0, 0, 0, 0, 3, 1))));
}

#[verifier::rlimit(100)]
proof fn acc_prod42_c3(p: Pt)
    ensures
        ((((((1215) * mn(p, 0, 1, 5, 3, 0, 0, 1) + (-3402) * mn(p, 0, 1, 5, 2, 0, 1, 2)) + ((486) * mn(p, 0, 1, 5, 2, 0, 1, 0) + (-324) * mn(p, 0, 1, 5, 1, 2, 0, 2))) + (((-162) * mn(p, 0, 1, 5, 1, 2, 0, 0) + (1215) * mn(p, 0, 1, 5, 1, 0, 2, 3)) + ((1701) * mn(p, 0, 1, 5, 1, 0, 2, 1) + ((81) * mn(p, 0, 1, 5, 0, 2, 1, 3) + (405) * mn(p, 0, 1, 5, 0, 2, 1, 1))))) + ((((-243) * mn(p, 0, 1, 5, 0, 0, 3, 4) + (243) * mn(p, 0, 1, 5, 0, 0, 3, 2)) + ((-1458) * mn(p, 0, 1, 5, 0, 0, 3, 0) + ((-1701) * mn(p, 0, 0, 6, 2, 1, 0, 2) + (243) * mn(p, 0, 0, 6, 2, 1, 0, 0)))) + (((972) * mn(p, 0, 0, 6, 1, 1, 1, 3) + (2673) * mn(p, 0, 0, 6, 1, 1, 1, 1)) + ((-243) * mn(p, 0, 0, 6, 0, 1, 2, 4) + ((-486) * mn(p, 0, 0, 6, 0, 1, 2, 2) + (-729) * mn(p, 0, 0, 6, 0, 1, 2, 0))))))) * ((((-1) * mn(p, 0, 0, 0, 3, 0, 0, 0) + (3) * mn(p, 0, 0, 0, 1, 0, 2, 0)) + ((1) * mn(p, 0, 0, 0, 0, 2, 1, 0) + (-1) * mn(p, 0, 0, 0, 0, 0, 3, 1)))) == ((((((-1215) * mn(p, 0, 1, 5, 6, 0, 0, 1) + ((3402) * mn(p, 0, 1, 5, 5, 0, 1, 2) + (-486) * mn(p, 0, 1, 5, 5, 0, 1, 0))) + ((324) * mn(p, 0, 1, 5, 4, 2, 0, 2) + ((162) * mn(p, 0, 1, 5, 4, 2, 0, 0) + (-1215) * mn(p, 0, 1, 5, 4, 0, 2, 3)))) + (((1944) * mn(p, 0, 1, 5, 4, 0, 2, 1) + ((-81) * mn(p, 0, 1, 5, 3, 2, 1, 3) + (810) * mn(p, 0, 1, 5, 3, 2, 1, 1))) + (((243) * mn(p, 0, 1, 5, 3, 0, 3, 4) + (-11664) * mn(p, 0, 1, 5, 3, 0, 3, 2)) + ((2916) * mn(p, 0, 1, 5, 3, 0, 3, 0) + (-4374) * mn(p, 0, 1, 5, 2, 2, 2, 2))))) + ((((7047) * mn(p, 0, 1, 5, 2, 0, 4, 3) + ((4617) * mn(p, 0, 1, 5, 2, 0, 4, 1) + (-324) * mn(p, 0, 1, 5, 1, 4, 1, 2))) + ((-162) * mn(p, 0, 1, 5, 1, 4, 1, 0) + ((1782) * mn(p, 0, 1, 5, 1, 2, 3, 3) + (3078) * mn(p, 0, 1, 5, 1, 2, 3, 1)))) + (((-1944) * mn(p, 0, 1, 5, 1, 0, 5, 4) + ((-972) * mn(p, 0, 1, 5, 1, 0, 5, 2) + (-4374) * mn(p, 0, 1, 5, 1, 0, 5, 0))) + (((81) * mn(p, 0, 1, 5, 0, 4, 2, 3) + (405) * mn(p, 0, 1, 5, 0, 4, 2, 1)) + ((-324) * mn(p, 0, 1, 5, 0, 2, 4, 4) + (-162) * mn(p, 0, 1, 5, 0, 2, 4, 2)))))) + (((((-1458) * mn(p, 0, 1, 5, 0, 2, 4, 0) + ((243) * mn(p, 0, 1, 5, 0, 0, 6, 5) + (-243) * mn(p, 0, 1, 5, 0, 0, 6, 3))) + ((1458) * mn(p, 0, 1, 5, 0, 0, 6, 1) + ((1701) * mn(p, 0, 0, 6, 5, 1, 0, 2) + (-243) * mn(p, 0, 0, 6, 5, 1, 0, 0)))) + (((-972) * mn(p, 0, 0, 6, 4, 1, 1, 3) + ((-2673) * mn(p, 0, 0, 6, 4, 1, 1, 1) + (243) * mn(p, 0, 0, 6, 3, 1, 2, 4))) + (((-4617) * mn(p, 0, 0, 6, 3, 1, 2, 2) + (1458) * mn(p, 0, 0, 6, 3, 1, 2, 0)) + ((-1701) * mn(p, 0, 0, 6, 2, 3, 1, 2) + (243) * mn(p, 0, 0, 6, 2, 3, 1, 0))))) + ((((4617) * mn(p, 0, 0, 6, 2, 1, 3, 3) + ((7776) * mn(p, 0, 0, 6, 2, 1, 3, 1) + (972) * mn(p, 0, 0, 6, 1, 3, 2, 3))) + ((2673) * mn(p, 0, 0, 6, 1, 3, 2, 1) + ((-1701) * mn(p, 0, 0, 6, 1, 1, 4, 4) + (-4131) * mn(p, 0, 0, 6, 1, 1, 4, 2)))) + (((-2187) * mn(p, 0, 0, 6, 1, 1, 4, 0) + ((-243) * mn(p, 0, 0, 6, 0, 3, 3, 4) + (-486) * mn(p, 0, 0, 6, 0, 3, 3, 2))) + (((-729) * mn(p, 0, 0, 6, 0, 3, 3, 0) + (243) * mn(p, 0, 0, 6, 0, 1, 5, 5)) + ((486) * mn(p, 0, 0, 6, 0, 1, 5, 3) + (729) * mn(p, 0, 0, 6, 0, 1, 5, 1))))))),
{
    let t0 = (1215) * mn(p, 0, 1, 5, 3, 0, 0, 1);
    let t1 = (-3402) * mn(p, 0, 1, 5, 2, 0, 1, 2);
    let t2 = (486) * mn(p, 0, 1, 5, 2, 0, 1, 0);
    let t3 = (-324) * mn(p, 0, 1, 5, 1, 2, 0, 2);
    let t4 = (-162) * mn(p, 0, 1, 5, 1, 2, 0, 0);
    let t5 = (1215) * mn(p, 0, 1, 5, 1, 0, 2, 3);
    let t6 = (1701) * mn(p, 0, 1, 5, 1, 0, 2, 1);
    let t7 = (81) * mn(p, 0, 1, 5, 0, 2, 1, 3);
    let t8 = (405) * mn(p, 0, 1, 5, 0, 2, 1, 1);
    let t9 = (-243) * mn(p, 0, 1, 5, 0, 0, 3, 4);
    let t10 = (243) * mn(p, 0, 1, 5, 0, 0, 3, 2);
    let t11 = (-1458) * mn(p, 0, 1, 5, 0, 0, 3, 0);
    let t12 = (-1701) * mn(p, 0, 0, 6, 2, 1, 0, 2);
    let t13 = (243) * mn(p, 0, 0, 6, 2, 1, 0, 0);
    let t14 = (972) * mn(p, 0, 0, 6, 1, 1, 1, 3);
    let t15 = (2673) * mn(p, 0, 0, 6, 1, 1, 1, 1);
    let t16 = (-243) * mn(p, 0, 0, 6, 0, 1, 2, 4);
    let t17 = (-486) * mn(p, 0, 0, 6, 0, 1, 2, 2);
    let t18 = (-729) * mn(p, 0, 0, 6, 0, 1, 2, 0);
    let s0 = (-1) * mn(p, 0, 0, 0, 3, 0, 0, 0);
    let s1 = (3) * mn(p, 0, 0, 0, 1, 0, 2, 0);
    let s2 = (1) * mn(p, 0, 0, 0, 0, 2, 1, 0);
    let s3 = (-1) * mn(p, 0, 0, 0, 0, 0, 3, 1);
    let pp0 = t0;
    let pp1 = pp0 + t1;
    let pp2 = pp1 + t2;
    let pp3 = pp2 + t3;
    let pp4 = pp3 + t4;
    let pp5 = pp4 + t5;
    let pp6 = pp5 + t6;
    let pp7 = pp6 + t7;
    let pp8 = pp7 + t8;
    let pp9 = pp8 + t9;
    let pp10 = pp9 + t10;
    let pp11 = pp10 + t11;
    let pp12 = pp11 + t12;
    let pp13 = pp12 + t13;
    let pp14 = pp13 + t14;
    let pp15 = pp14 + t15;
    let pp16 = pp15 + t16;
    let pp17 = pp16 + t17;
    let pp18 = pp17 + t18;
    let qq0 = s0;
    let qq1 = qq0 + s1;
    let qq2 = qq1 + s2;
    let qq3 = qq2 + s3;
    let q = qq3;
    lemma_mul_is_distributive_add_other_way(q, pp0, t1);
    lemma_mul_is_distributive_add_other_way(q, pp1, t2);
    lemma_mul_is_distributive_add_other_way(q, pp2, t3);
    lemma_mul_is_distributive_add_other_way(q, pp3, t4);
    lemma_mul_is_distributive_add_other_way(q, pp4, t5);
    lemma_mul_is_distributive_add_other_way(q, pp5, t6);
    lemma_mul_is_distributive_add_other_way(q, pp6, t7);
    lemma_mul_is_distributive_add_other_way(q, pp7, t8);
    lemma_mul_is_distributive_add_other_way(q, pp8, t9);
    lemma_mul_is_distributive_add_other_way(q, pp9, t10);
    lemma_mul_is_distributive_add_other_way(q, pp10, t11);
    lemma_mul_is_distributive_add_other_way(q, pp11, t12);
    lemma_mul_is_distributive_add_other_way(q, pp12, t13);
    lemma_mul_is_distributive_add_other_way(q, pp13, t14);
    lemma_mul_is_distributive_add_other_way(q, pp14, t15);
    lemma_mul_is_distributive_add_other_way(q, pp15, t16);
    lemma_mul_is_distributive_add_other_way(q, pp16, t17);
    lemma_mul_is_distributive_add_other_way(q, pp17, t18);
    lemma_mul_is_distributive_add(t0, qq0, s1);
    lemma_mul_is_distributive_add(t0, qq1, s2);
    lemma_mul_is_distributive_add(t0, qq2, s3);
    lemma_mul_is_distributive_add(t1, qq0, s1);
    lemma_mul_is_distributive_add(t1, qq1, s2);
    lemma_mul_is_distributive_add(t1, qq2, s3);
    lemma_mul_is_distributive_add(t2, qq0, s1);
    lemma_mul_is_distributive_add(t2, qq1, s2);
    lemma_mul_is_distributive_add(t2, qq2, s3);
    lemma_mul_is_distributive_add(t3, qq0, s1);
    lemma_mul_is_distributive_add(t3, qq1, s2);
    lemma_mul_is_distributive_add(t3, qq2, s3);
    lemma_mul_is_distributive_add(t4, qq0, s1);
    lemma_mul_is_distributive_add(t4, qq1, s2);
    lemma_mul_is_distributive_add(t4, qq2, s3);
    lemma_mul_is_distributive_add(t5, qq0, s1);
    lemma_mul_is_distributive_add(t5, qq1, s2);
    lemma_mul_is_distributive_add(t5, qq2, s3);
    lemma_mul_is_distributive_add(t6, qq0, s1);
    lemma_mul_is_distributive_add(t6, qq1, s2);
    lemma_mul_is_distributive_add(t6, qq2, s3);
    lemma_mul_is_distributive_add(t7, qq0, s1);
    lemma_mul_is_distributive_add(t7, qq1, s2);
    lemma_mul_is_distributive_add(t7, qq2, s3);
    lemma_mul_is_distributive_add(t8, qq0, s1);
    lemma_mul_is_distributive_add(t8, qq1, s2);
    lemma_mul_is_distributive_add(t8, qq2, s3);
    lemma_mul_is_distributive_add(t9, qq0, s1);
    lemma_mul_is_distributive_add(t9, qq1, s2);
    lemma_mul_is_distributive_add(t9, qq2, s3);
    lemma_mul_is_distributive_add(t10, qq0, s1);
    lemma_mul_is_distributive_add(t10, qq1, s2);
    lemma_mul_is_distributive_add(t10, qq2, s3);
    lemma_mul_is_distributive_add(t11, qq0, s1);
    lemma_mul_is_distributive_add(t11, qq1, s2);
    lemma_mul_is_distributive_add(t11, qq2, s3);
    lemma_mul_is_distributive_add(t12, qq0, s1);
    lemma_mul_is_distributive_add(t12, qq1, s2);
    lemma_mul_is_distributive_add(t12, qq2, s3);
    lemma_mul_is_distributive_add(t13, qq0, s1);
    lemma_mul_is_distributive_add(t13, qq1, s2);
    lemma_mul_is_distributive_add(t13, qq2, s3);
    lemma_mul_is_distributive_add(t14, qq0, s1);
    lemma_mul_is_distributive_add(t14, qq1, s2);
    lemma_mul_is_distributive_add(t14, qq2, s3);
    lemma_mul_is_distributive_add(t15, qq0, s1);
    lemma_mul_is_distributive_add(t15, qq1, s2);
    lemma_mul_is_distributive_add(t15, qq2, s3);
    lemma_mul_is_distributive_add(t16, qq0, s1);
    lemma_mul_is_distributive_add(t16, qq1, s2);
    lemma_mul_is_distributive_add(t16, qq2, s3);
    lemma_mul_is_distributive_add(t17, qq0, s1);
    lemma_mul_is_distributive_add(t17, qq1, s2);
    lemma_mul_is_distributive_add(t17, qq2, s3);
    lemma_mul_is_distributive_add(t18, qq0, s1);
    lemma_mul_is_distributive_add(t18, qq1, s2);
    lemma_mul_is_distributive_add(t18, qq2, s3);
    lemma_tm(p, 1215, 0, 1, 5, 3, 0, 0, 1, -1, 0, 0, 0, 3, 0, 0, 0);
    assert(t0 * s0 == (-1215) * mn(p, 0, 1, 5, 6, 0, 0, 1));
    lemma_tm(p, 1215, 0, 1, 5, 3, 0, 0, 1, 3, 0, 0, 0, 1, 0, 2, 0);
    assert(t0 * s1 == (3645) * mn(p, 0, 1, 5, 4, 0, 2, 1));
    lemma_tm(p, 1215, 0, 1, 5, 3, 0, 0, 1, 1, 0, 0, 0, 0, 2, 1, 0);
    assert(t0 * s2 == (1215) * mn(p, 0, 1, 5, 3, 2, 1, 1));
    lemma_tm(p, 1215, 0, 1, 5, 3, 0, 0, 1, -1, 0, 0, 0, 0, 0, 3, 1);
    assert(t0 * s3 == (-1215) * mn(p, 0, 1, 5, 3, 0, 3, 2));
    assert(t0 * q == (-1215) * mn(p, 0, 1, 5, 6, 0, 0, 1) + (3645) * mn(p, 0, 1, 5, 4, 0, 2, 1) + (1215) * mn(p, 0, 1, 5, 3, 2, 1, 1) + (-1215) * mn(p, 0, 1, 5, 3, 0, 3, 2));
    lemma_tm(p, -3402, 0, 1, 5, 2, 0, 1, 2, -1, 0, 0, 0, 3, 0, 0, 0);
    assert(t1 * s0 == (3402) * mn(p, 0, 1, 5, 5, 0, 1, 2));
    lemma_tm(p, -3402, 0, 1, 5, 2, 0, 1, 2, 3, 0, 0, 0, 1, 0, 2, 0);
    assert(t1 * s1 == (-10206) * mn(p, 0, 1, 5, 3, 0, 3, 2));
    lemma_tm(p, -3402, 0, 1, 5, 2, 0, 1, 2, 1, 0, 0, 0, 0, 2, 1, 0);
    assert(t1 * s2 == (-3402) * mn(p, 0, 1, 5, 2, 2, 2, 2));
    lemma_tm(p, -3402, 0, 1, 5, 2, 0, 1, 2, -1, 0, 0, 0, 0, 0, 3, 1);
    assert(t1 * s3 == (3402) * mn(p, 0, 1, 5, 2, 0, 4, 3));
    assert(t1 * q == (3402) * mn(p, 0, 1, 5, 5, 0, 1, 2) + (-10206) * mn(p, 0, 1, 5, 3, 0, 3, 2) + (-3402) * mn(p, 0, 1, 5, 2, 2, 2, 2) + (3402) * mn(p, 0, 1, 5, 2, 0, 4, 3));
    lemma_tm(p, 486, 0, 1, 5, 2, 0, 1, 0, -1, 0, 0, 0, 3, 0, 0, 0);
    assert(t2 * s0 == (-486) * mn(p, 0, 1, 5, 5, 0, 1, 0));
    lemma_tm(p, 486, 0, 1, 5, 2, 0, 1, 0, 3, 0, 0, 0, 1, 0, 2, 0);
    assert(t2 * s1 == (1458) * mn(p, 0, 1, 5, 3, 0, 3, 0));
    lemma_tm(p, 486, 0, 1, 5, 2, 0, 1, 0, 1, 0, 0, 0, 0, 2, 1, 0);
    assert(t2 * s2 == (486) * mn(p, 0, 1, 5, 2, 2, 2, 0));
    lemma_tm(p, 486, 0, 1, 5, 2, 0, 1, 0, -1, 0, 0, 0, 0, 0, 3, 1);
    assert(t2 * s3 == (-486) * mn(p, 0, 1, 5, 2, 0, 4, 1));
    assert(t2 * q == (-486) * mn(p, 0, 1, 5, 5, 0, 1, 0) + (1458) * mn(p, 0, 1, 5, 3, 0, 3, 0) + (486) * mn(p, 0, 1, 5, 2, 2, 2, 0) + (-486) * mn(p, 0, 1, 5, 2, 0, 4, 1));
    lemma_tm(p, -324, 0, 1, 5, 1, 2, 0, 2, -1, 0, 0, 0, 3, 0, 0, 0);
    assert(t3 * s0 == (324) * mn(p, 0, 1, 5, 4, 2, 0, 2));
    lemma_tm(p, -324, 0, 1, 5, 1, 2, 0, 2, 3, 0, 0, 0, 1, 0, 2, 0);
    assert(t3 * s1 == (-972) * mn(p, 0, 1, 5, 2, 2, 2, 2));
    lemma_tm(p, -324, 0, 1, 5, 1, 2, 0, 2, 1, 0, 0, 0, 0, 2, 1, 0);
    assert(t3 * s2 == (-324) * mn(p, 0, 1, 5, 1, 4, 1, 2));
    lemma_tm(p, -324, 0, 1, 5, 1, 2, 0, 2, -1, 0, 0, 0, 0, 0, 3, 1);
    assert(t3 * s3 == (324) * mn(p, 0, 1, 5, 1, 2, 3, 3));
    assert(t3 * q == (324) * mn(p, 0, 1, 5, 4, 2, 0, 2) + (-972) * mn(p, 0, 1, 5, 2, 2, 2, 2) + (-324) * mn(p, 0, 1, 5, 1, 4, 1, 2) + (324) * mn(p, 0, 1, 5, 1, 2, 3, 3));
    lemma_tm(p, -162, 0, 1, 5, 1, 2, 0, 0, -1, 0, 0, 0, 3, 0, 0, 0);
    assert(t4 * s0 == (162) * mn(p, 0, 1, 5, 4, 2, 0, 0));
    lemma_tm(p, -162, 0, 1, 5, 1, 2, 0, 0, 3, 0, 0, 0, 1, 0, 2, 0);
    assert(t4 * s1 == (-486) * mn(p, 0, 1, 5, 2, 2, 2, 0));
    lemma_tm(p, -162, 0, 1, 5, 1, 2, 0, 0, 1, 0, 0, 0, 0, 2, 1, 0);
    assert(t4 * s2 == (-162) * mn(p, 0, 1, 5, 1, 4, 1, 0));
    lemma_tm(p, -162, 0, 1, 5, 1, 2, 0, 0, -1, 0, 0, 0, 0, 0, 3, 1);
    assert(t4 * s3 == (162) * mn(p, 0, 1, 5, 1, 2, 3, 1));
    assert(t4 * q == (162) * mn(p, 0, 1, 5, 4, 2, 0, 0) + (-486) * mn(p, 0, 1, 5, 2, 2, 2, 0) + (-162) * mn(p, 0, 1, 5, 1, 4, 1, 0) + (162) * mn(p, 0, 1, 5, 1, 2, 3, 1));
    lemma_tm(p, 1215, 0, 1, 5, 1, 0, 2, 3, -1, 0, 0, 0, 3, 0, 0, 0);
    assert(t5 * s0 == (-1215) * mn(p, 0, 1, 5, 4, 0, 2, 3));
    lemma_tm(p, 1215, 0, 1, 5, 1, 0, 2, 3, 3, 0, 0, 0, 1, 0, 2, 0);
    assert(t5 * s1 == (3645) * mn(p, 0, 1, 5, 2, 0, 4, 3));
    lemma_tm(p, 1215, 0, 1, 5, 1, 0, 2, 3, 1, 0, 0, 0, 0, 2, 1, 0);
    assert(t5 * s2 == (1215) * mn(p, 0, 1, 5, 1, 2, 3, 3));
    lemma_tm(p, 1215, 0, 1, 5, 1, 0, 2, 3, -1, 0, 0, 0, 0, 0, 3, 1);
    assert(t5 * s3 == (-1215) * mn(p, 0, 1, 5, 1, 0, 5, 4));
    assert(t5 * q == (-1215) * mn(p, 0, 1, 5, 4, 0, 2, 3) + (3645) * mn(p, 0, 1, 5, 2, 0, 4, 3) + (1215) * mn(p, 0, 1, 5, 1, 2, 3, 3) + (-1215) * mn(p, 0, 1, 5, 1, 0, 5, 4));
    lemma_tm(p, 1701, 0, 1, 5, 1, 0, 2, 1, -1, 0, 0, 0, 3, 0, 0, 0);
    assert(t6 * s0 == (-1701) * mn(p, 0, 1, 5, 4, 0, 2, 1));
    lemma_tm(p, 1701, 0, 1, 5, 1, 0, 2, 1, 3, 0, 0, 0, 1, 0, 2, 0);
    assert(t6 * s1 == (5103) * mn(p, 0, 1, 5, 2, 0, 4, 1));
    lemma_tm(p, 1701, 0, 1, 5, 1, 0, 2, 1, 1, 0, 0, 0, 0, 2, 1, 0);
    assert(t6 * s2 == (1701) * mn(p, 0, 1, 5, 1, 2, 3, 1));
    lemma_tm(p, 1701, 0, 1, 5, 1, 0, 2, 1, -1, 0, 0, 0, 0, 0, 3, 1);
    assert(t6 * s3 == (-1701) * mn(p, 0, 1, 5, 1, 0, 5, 2));
    assert(t6 * q == (-1701) * mn(p, 0, 1, 5, 4, 0, 2, 1) + (5103) * mn(p, 0, 1, 5, 2, 0, 4, 1) + (1701) * mn(p, 0, 1, 5, 1, 2, 3, 1) + (-1701) * mn(p, 0, 1, 5, 1, 0, 5, 2));
    lemma_tm(p, 81, 0, 1, 5, 0, 2, 1, 3, -1, 0, 0, 0, 3, 0, 0, 0);
    assert(t7 * s0 == (-81) * mn(p, 0, 1, 5, 3, 2, 1, 3));
    lemma_tm(p, 81, 0, 1, 5, 0, 2, 1, 3, 3, 0, 0, 0, 1, 0, 2, 0);
    assert(t7 * s1 == (243) * mn(p, 0, 1, 5, 1, 2, 3, 3));
    lemma_tm(p, 81, 0, 1, 5, 0, 2, 1, 3, 1, 0, 0, 0, 0, 2, 1, 0);
    assert(t7 * s2 == (81) * mn(p, 0, 1, 5, 0, 4, 2, 3));
    lemma_tm(p, 81, 0, 1, 5, 0, 2, 1, 3, -1, 0, 0, 0, 0, 0, 3, 1);
    assert(t7 * s3 == (-81) * mn(p, 0, 1, 5, 0, 2, 4, 4));
    assert(t7 * q == (-81) * mn(p, 0, 1, 5, 3, 2, 1, 3) + (243) * mn(p, 0, 1, 5, 1, 2, 3, 3) + (81) * mn(p, 0, 1, 5, 0, 4, 2, 3) + (-81) * mn(p, 0, 1, 5, 0, 2, 4, 4));
    lemma_tm(p, 405, 0, 1, 5, 0, 2, 1, 1, -1, 0, 0, 0, 3, 0, 0, 0);
    assert(t8 * s0 == (-405) * mn(p, 0, 1, 5, 3, 2, 1, 1));
    lemma_tm(p, 405, 0, 1, 5, 0, 2, 1, 1, 3, 0, 0, 0, 1, 0, 2, 0);
    assert(t8 * s1 == (1215) * mn(p, 0, 1, 5, 1, 2, 3, 1));
    lemma_tm(p, 405, 0, 1, 5, 0, 2, 1, 1, 1, 0, 0, 0, 0, 2, 1, 0);
    assert(t8 * s2 == (405) * mn(p, 0, 1, 5, 0, 4, 2, 1));
    lemma_tm(p, 405, 0, 1, 5, 0, 2, 1, 1, -1, 0, 0, 0, 0, 0, 3, 1);
    assert(t8 * s3 == (-405) * mn(p, 0, 1, 5, 0, 2, 4, 2));
    assert(t8 * q == (-405) * mn(p, 0, 1, 5, 3, 2, 1, 1) + (1215) * mn(p, 0, 1, 5, 1, 2, 3, 1) + (405) * mn(p, 0, 1, 5, 0, 4, 2, 1) + (-405) * mn(p, 0, 1, 5, 0, 2, 4, 2));
    lemma_tm(p, -243, 0, 1, 5, 0, 0, 3, 4, -1, 0, 0, 0, 3, 0, 0, 0);
    assert(t9 * s0 == (243) * mn(p, 0, 1, 5, 3, 0, 3, 4));
    lemma_tm(p, -243, 0, 1, 5, 0, 0, 3, 4, 3, 0, 0, 0, 1, 0, 2, 0);
    assert(t9 * s1 == (-729) * mn(p, 0, 1, 5, 1, 0, 5, 4));
    lemma_tm(p, -243, 0, 1, 5, 0, 0, 3, 4, 1, 0, 0, 0, 0, 2, 1, 0);
    assert(t9 * s2 == (-243) * mn(p, 0, 1, 5, 0, 2, 4, 4));
    lemma_tm(p, -243, 0, 1, 5, 0, 0, 3, 4, -1, 0, 0, 0, 0, 0, 3, 1);
    assert(t9 * s3 == (243) * mn(p, 0, 1, 5, 0, 0, 6, 5));
    assert(t9 * q == (243) * mn(p, 0, 1, 5, 3, 0, 3, 4) + (-729) * mn(p, 0, 1, 5, 1, 0, 5, 4) + (-243) * mn(p, 0, 1, 5, 0, 2, 4, 4) + (243) * mn(p, 0, 1, 5, 0, 0, 6, 5));
    lemma_tm(p, 243, 0, 1, 5, 0, 0, 3, 2, -1, 0, 0, 0, 3, 0, 0, 0);
    assert(t10 * s0 == (-243) * mn(p, 0, 1, 5, 3, 0, 3, 2));
    lemma_tm(p, 243, 0, 1, 5, 0, 0, 3, 2, 3, 0, 0, 0, 1, 0, 2, 0);
    assert(t10 * s1 == (729) * mn(p, 0, 1, 5, 1, 0, 5, 2));
    lemma_tm(p, 243, 0, 1, 5, 0, 0, 3, 2, 1, 0, 0, 0, 0, 2, 1, 0);
    assert(t10 * s2 == (243) * mn(p, 0, 1, 5, 0, 2, 4, 2));
    lemma_tm(p, 243, 0, 1, 5, 0, 0, 3, 2, -1, 0, 0, 0, 0, 0, 3, 1);
    assert(t10 * s3 == (-243) * mn(p, 0, 1, 5, 0, 0, 6, 3));
    assert(t10 * q == (-243) * mn(p, 0, 1, 5, 3, 0, 3, 2) + (729) * mn(p, 0, 1, 5, 1, 0, 5, 2) + (243) * mn(p, 0, 1, 5, 0, 2, 4, 2) + (-243) * mn(p, 0, 1, 5, 0, 0, 6, 3));
    lemma_tm(p, -1458, 0, 1, 5, 0, 0, 3, 0, -1, 0, 0, 0, 3, 0, 0, 0);
    assert(t11 * s0 == (1458) * mn(p, 0, 1, 5, 3, 0, 3, 0));
    lemma_tm(p, -1458, 0, 1, 5, 0, 0, 3, 0, 3, 0, 0, 0, 1, 0, 2, 0);
    assert(t11 * s1 == (-4374) * mn(p, 0, 1, 5, 1, 0, 5, 0));
    lemma_tm(p, -1458, 0, 1, 5, 0, 0, 3, 0, 1, 0, 0, 0, 0, 2, 1, 0);
    assert(t11 * s2 == (-1458) * mn(p, 0, 1, 5, 0, 2, 4, 0));
    lemma_tm(p, -1458, 0, 1, 5, 0, 0, 3, 0, -1, 0, 0, 0, 0, 0, 3, 1);
    assert(t11 * s3 == (1458) * mn(p, 0, 1, 5, 0, 0, 6, 1));
    assert(t11 * q == (1458) * mn(p, 0, 1, 5, 3, 0, 3, 0) + (-4374) * mn(p, 0, 1, 5, 1, 0, 5, 0) + (-1458) * mn(p, 0, 1, 5, 0, 2, 4, 0) + (1458) * mn(p, 0, 1, 5, 0, 0, 6, 1));
    lemma_tm(p, -1701, 0, 0, 6, 2, 1, 0, 2, -1, 0, 0, 0, 3, 0, 0, 0);
    assert(t12 * s0 == (1701) * mn(p, 0, 0, 6, 5, 1, 0, 2));
    lemma_tm(p, -1701, 0, 0, 6, 2, 1, 0, 2, 3, 0, 0, 0, 1, 0, 2, 0);
    assert(t12 * s1 == (-5103) * mn(p, 0, 0, 6, 3, 1, 2, 2));
    lemma_tm(p, -1701, 0, 0, 6, 2, 1, 0, 2, 1, 0, 0, 0, 0, 2, 1, 0);
    assert(t12 * s2 == (-1701) * mn(p, 0, 0, 6, 2, 3, 1, 2));
    lemma_tm(p, -1701, 0, 0, 6, 2, 1, 0, 2, -1, 0, 0, 0, 0, 0, 3, 1);
    assert(t12 * s3 == (1701) * mn(p, 0, 0, 6, 2, 1, 3, 3));
    assert(t12 * q == (1701) * mn(p, 0, 0, 6, 5, 1, 0, 2) + (-5103) * mn(p, 0, 0, 6, 3, 1, 2, 2) + (-1701) * mn(p, 0, 0, 6, 2, 3, 1, 2) + (1701) * mn(p, 0, 0, 6, 2, 1, 3, 3));
    lemma_tm(p, 243, 0, 0, 6, 2, 1, 0, 0, -1, 0, 0, 0, 3, 0, 0, 0);
    assert(t13 * s0 == (-243) * mn(p, 0, 0, 6, 5, 1, 0, 0));
    lemma_tm(p, 243, 0, 0, 6, 2, 1, 0, 0, 3, 0, 0, 0, 1, 0, 2, 0);
    assert(t13 * s1 == (729) * mn(p, 0, 0, 6, 3, 1, 2, 0));
    lemma_tm(p, 243, 0, 0, 6, 2, 1, 0, 0, 1, 0, 0, 0, 0, 2, 1, 0);
    assert(t13 * s2 == (243) * mn(p, 0, 0, 6, 2, 3, 1, 0));
    lemma_tm(p, 243, 0, 0, 6, 2, 1, 0, 0, -1, 0, 0, 0, 0, 0, 3, 1);
    assert(t13 * s3 == (-243) * mn(p, 0, 0, 6, 2, 1, 3, 1));
    assert(t13 * q == (-243) * mn(p, 0, 0, 6, 5, 1, 0, 0) + (729) * mn(p, 0, 0, 6, 3, 1, 2, 0) + (243) * mn(p, 0, 0, 6, 2, 3, 1, 0) + (-243) * mn(p, 0, 0, 6, 2, 1, 3, 1));
    lemma_tm(p, 972, 0, 0, 6, 1, 1, 1, 3, -1, 0, 0, 0, 3, 0, 0, 0);
    assert(t14 * s0 == (-972) * mn(p, 0, 0, 6, 4, 1, 1, 3));
    lemma_tm(p, 972, 0, 0, 6, 1, 1, 1, 3, 3, 0, 0, 0, 1, 0, 2, 0);
    assert(t14 * s1 == (2916) * mn(p, 0, 0, 6, 2, 1, 3, 3));
    lemma_tm(p, 972, 0, 0, 6, 1, 1, 1, 3, 1, 0, 0, 0, 0, 2, 1, 0);
    assert(t14 * s2 == (972) * mn(p, 0, 0, 6, 1, 3, 2, 3));
    lemma_tm(p, 972, 0, 0, 6, 1, 1, 1, 3, -1, 0, 0, 0, 0, 0, 3, 1);
    assert(t14 * s3 == (-972) * mn(p, 0, 0, 6, 1, 1, 4, 4));
    assert(t14 * q == (-972) * mn(p, 0, 0, 6, 4, 1, 1, 3) + (2916) * mn(p, 0, 0, 6, 2, 1, 3, 3) + (972) * mn(p, 0, 0, 6, 1, 3, 2, 3) + (-972) * mn(p, 0, 0, 6, 1, 1, 4, 4));
    lemma_tm(p, 2673, 0, 0, 6, 1, 1, 1, 1, -1, 0, 0, 0, 3, 0, 0, 0);
    assert(t15 * s0 == (-2673) * mn(p, 0, 0, 6, 4, 1, 1, 1));
    lemma_tm(p, 2673, 0, 0, 6, 1, 1, 1, 1, 3, 0, 0, 0, 1, 0, 2, 0);
    assert(t15 * s1 == (8019) * mn(p, 0, 0, 6, 2, 1, 3, 1));
    lemma_tm(p, 2673, 0, 0, 6, 1, 1, 1, 1, 1, 0, 0, 0, 0, 2, 1, 0);
    assert(t15 * s2 == (2673) * mn(p, 0, 0, 6, 1, 3, 2, 1));
    lemma_tm(p, 2673, 0, 0, 6, 1, 1, 1, 1, -1, 0, 0, 0, 0, 0, 3, 1);
    assert(t15 * s3 == (-2673) * mn(p, 0, 0, 6, 1, 1, 4, 2));
    assert(t15 * q == (-2673) * mn(p, 0, 0, 6, 4, 1, 1, 1) + (8019) * mn(p, 0, 0, 6, 2, 1, 3, 1) + (2673) * mn(p, 0, 0, 6, 1, 3, 2, 1) + (-2673) * mn(p, 0, 0, 6, 1, 1, 4, 2));
    lemma_tm(p, -243, 0, 0, 6, 0, 1, 2, 4, -1, 0, 0, 0, 3, 0, 0, 0);
    assert(t16 * s0 == (243) * mn(p, 0, 0, 6, 3, 1, 2, 4));
    lemma_tm(p, -243, 0, 0, 6, 0, 1, 2, 4, 3, 0, 0, 0, 1, 0, 2, 0);
    assert(t16 * s1 == (-729) * mn(p, 0, 0, 6, 1, 1, 4, 4));
    lemma_tm(p, -243, 0, 0, 6, 0, 1, 2, 4, 1, 0, 0, 0, 0, 2, 1, 0);
    assert(t16 * s2 == (-243) * mn(p, 0, 0, 6, 0, 3, 3, 4));
    lemma_tm(p, -243, 0, 0, 6, 0, 1, 2, 4, -1, 0, 0, 0, 0, 0, 3, 1);
    assert(t16 * s3 == (243) * mn(p, 0, 0, 6, 0, 1, 5, 5));
    assert(t16 * q == (243) * mn(p, 0, 0, 6, 3, 1, 2, 4) + (-729) * mn(p, 0, 0, 6, 1, 1, 4, 4) + (-243) * mn(p, 0, 0, 6, 0, 3, 3, 4) + (243) * mn(p, 0, 0, 6, 0, 1, 5, 5));
    lemma_tm(p, -486, 0, 0, 6, 0, 1, 2, 2, -1, 0, 0, 0, 3, 0, 0, 0);
    assert(t17 * s0 == (486) * mn(p, 0, 0, 6, 3, 1, 2, 2));
    lemma_tm(p, -486, 0, 0, 6, 0, 1, 2, 2, 3, 0, 0, 0, 1, 0, 2, 0);
    assert(t17 * s1 == (-1458) * mn(p, 0, 0, 6, 1, 1, 4, 2));
    lemma_tm(p, -486, 0, 0, 6, 0, 1, 2, 2, 1, 0, 0, 0, 0, 2, 1, 0);
    assert(t17 * s2 == (-486) * mn(p, 0, 0, 6, 0, 3, 3, 2));
    lemma_tm(p, -486, 0, 0, 6, 0, 1, 2, 2, -1, 0, 0, 0, 0, 0, 3, 1);
    assert(t17 * s3 == (486) * mn(p, 0, 0, 6, 0, 1, 5, 3));
    assert(t17 * q == (486) * mn(p, 0, 0, 6, 3, 1, 2, 2) + (-1458) * mn(p, 0, 0, 6, 1, 1, 4, 2) + (-486) * mn(p, 0, 0, 6, 0, 3, 3, 2) + (486) * mn(p, 0, 0, 6, 0, 1, 5, 3));
    lemma_tm(p, -729, 0, 0, 6, 0, 1, 2, 0, -1, 0, 0, 0, 3, 0, 0, 0);
    assert(t18 * s0 == (729) * mn(p, 0, 0, 6, 3, 1, 2, 0));
    lemma_tm(p, -729, 0, 0, 6, 0, 1, 2, 0, 3, 0, 0, 0, 1, 0, 2, 0);
    assert(t18 * s1 == (-2187) * mn(p, 0, 0, 6, 1, 1, 4, 0));
    lemma_tm(p, -729, 0, 0, 6, 0, 1, 2, 0, 1, 0, 0, 0, 0, 2, 1, 0);
    assert(t18 * s2 == (-729) * mn(p, 0, 0, 6, 0, 3, 3, 0));
    lemma_tm(p, -729, 0, 0, 6, 0, 1, 2, 0, -1, 0, 0, 0, 0, 0, 3, 1);
    assert(t18 * s3 == (729) * mn(p, 0, 0, 6, 0, 1, 5, 1));
    assert(t18 * q == (729) * mn(p, 0, 0, 6, 3, 1, 2, 0) + (-2187) * mn(p, 0, 0, 6, 1, 1, 4, 0) + (-729) * mn(p, 0, 0, 6, 0, 3, 3, 0) + (729) * mn(p, 0, 0, 6, 0, 1, 5, 1));
    assert(pp18 * q == ((((((-1215) * mn(p, 0, 1, 5, 6, 0, 0, 1) + ((3402) * mn(p, 0, 1, 5, 5, 0, 1, 2) + (-486) * mn(p, 0, 1, 5, 5, 0, 1, 0))) + ((324) * mn(p, 0, 1, 5, 4, 2, 0, 2) + ((162) * mn(p, 0, 1, 5, 4, 2, 0, 0) + (-1215) * mn(p, 0, 1, 5, 4, 0, 2, 3)))) + (((1944) * mn(p, 0, 1, 5, 4, 0, 2, 1) + ((-81) * mn(p, 0, 1, 5, 3, 2, 1, 3) + (810) * mn(p, 0, 1, 5, 3, 2, 1, 1))) + (((243) * mn(p, 0, 1, 5, 3, 0, 3, 4) + (-11664) * mn(p, 0, 1, 5, 3, 0, 3, 2)) + ((2916) * mn(p, 0, 1, 5, 3, 0, 3, 0) + (-4374) * mn(p, 0, 1, 5, 2, 2, 2, 2))))) + ((((7047) * mn(p, 0, 1, 5, 2, 0, 4, 3) + ((4617) * mn(p, 0, 1, 5, 2, 0, 4, 1) + (-324) * mn(p, 0, 1, 5, 1, 4, 1, 2))) + ((-162) * mn(p, 0, 1, 5, 1, 4, 1, 0) + ((1782) * mn(p, 0, 1, 5, 1, 2, 3, 3) + (3078) * mn(p, 0, 1, 5, 1, 2, 3, 1)))) + (((-1944) * mn(p, 0, 1, 5, 1, 0, 5, 4) + ((-972) * mn(p, 0, 1, 5, 1, 0, 5, 2) + (-4374) * mn(p, 0, 1, 5, 1, 0, 5, 0))) + (((81) * mn(p, 0, 1, 5, 0, 4, 2, 3) + (405) * mn(p, 0, 1, 5, 0, 4, 2, 1)) + ((-324) * mn(p, 0, 1, 5, 0, 2, 4, 4) + (-162) * mn(p, 0, 1, 5, 0, 2, 4, 2)))))) + (((((-1458) * mn(p, 0, 1, 5, 0, 2, 4, 0) + ((243) * mn(p, 0, 1, 5, 0, 0, 6, 5) + (-243) * mn(p, 0, 1, 5, 0, 0, 6, 3))) + ((1458) * mn(p, 0, 1, 5, 0, 0, 6, 1) + ((1701) * mn(p, 0, 0, 6, 5, 1, 0, 2) + (-243) * mn(p, 0, 0, 6, 5, 1, 0, 0)))) + (((-972) * mn(p, 0, 0, 6, 4, 1, 1, 3) + ((-2673) * mn(p, 0, 0, 6, 4, 1, 1, 1) + (243) * mn(p, 0, 0, 6, 3, 1, 2, 4))) + (((-4617) * mn(p, 0, 0, 6, 3, 1, 2, 2) + (1458) * mn(p, 0, 0, 6, 3, 1, 2, 0)) + ((-1701) * mn(p, 0, 0, 6, 2, 3, 1, 2) + (243) * mn(p, 0, 0, 6, 2, 3, 1, 0))))) + ((((4617) * mn(p, 0, 0, 6, 2, 1, 3, 3) + ((7776) * mn(p, 0, 0, 6, 2, 1, 3, 1) + (972) * mn(p, 0, 0, 6, 1, 3, 2, 3))) + ((2673) * mn(p, 0, 0, 6, 1, 3, 2, 1) + ((-1701) * mn(p, 0, 0, 6, 1, 1, 4, 4) + (-4131) * mn(p, 0, 0, 6, 1, 1, 4, 2)))) + (((-2187) * mn(p, 0, 0, 6, 1, 1, 4, 0) + ((-243) * mn(p, 0, 0, 6, 0, 3, 3, 4) + (-486) * mn(p, 0, 0, 6, 0, 3, 3, 2))) + (((-729) * mn(p, 0, 0, 6, 0, 3, 3, 0) + (243) * mn(p, 0, 0, 6, 0, 1, 5, 5)) + ((486) * mn(p, 0, 0, 6, 0, 1, 5, 3) + (729) * mn(p, 0, 0, 6, 0, 1, 5, 1))))))));
    assert(pp18 == (((((1215) * mn(p, 0, 1, 5, 3, 0, 0, 1) + (-3402) * mn(p, 0, 1, 5, 2, 0, 1, 2)) + ((486) * mn(p, 0, 1, 5, 2, 0, 1, 0) + (-324) * mn(p, 0, 1, 5, 1, 2, 0, 2))) + (((-162) * mn(p, 0, 1, 5, 1, 2, 0, 0) + (1215) * mn(p, 0, 1, 5, 1, 0, 2, 3)) + ((1701) * mn(p, 0, 1, 5, 1, 0, 2, 1) + ((81) * mn(p, 0, 1, 5, 0, 2, 1, 3) + (405) * mn(p, 0, 1, 5, 0, 2, 1, 1))))) + ((((-243) * mn(p, 0, 1, 5, 0, 0, 3, 4) + (243) * mn(p, 0, 1, 5, 0, 0, 3, 2)) + ((-1458) * mn(p, 0, 1, 5, 0, 0, 3, 0) + ((-1701) * mn(p, 0, 0, 6, 2, 1, 0, 2) + (243) * mn(p, 0, 0, 6, 2, 1, 0, 0)))) + (((972) * mn(p, 0, 0, 6, 1, 1, 1, 3) + (2673) * mn(p, 0, 0, 6, 1, 1, 1, 1)) + ((-243) * mn(p, 0, 0, 6, 0, 1, 2, 4) + ((-486) * mn(p, 0, 0, 6, 0, 1, 2, 2) + (-729) * mn(p, 0, 0, 6, 0, 1, 2, 0)))))));
    assert(q == (((-1) * mn(p, 0, 0, 0, 3, 0, 0, 0) + (3) * mn(p, 0, 0, 0, 1, 0, 2, 0)) + ((1) * mn(p, 0, 0, 0, 0, 2, 1, 0) + (-1) * mn(p, 0, 0, 0, 0, 0, 3, 1))));
}

#[verifier::rlimit(100)]
proof fn lemma_add_coords_expanded(x1: int, y1: int, z1: int, x2: int, y2: int, z2: int, b: int)
    ensures
        ({
            let p = Pt { v0: x1, v1: y1, v2: z1, v3: x2, v4: y2, v5: z2, v6: b };
            &&& rcb_add(x1, y1, z1, x2, y2, z2, b).0 == ((((3) * mn(p, 2, 0, 0, 0, 1, 1, 0) + ((6) * mn(p, 1, 1, 0, 1, 0, 1, 0) + (1) * mn(p, 1, 1, 0, 0, 2, 0, 0))) + ((-3) * mn(p, 1, 1, 0, 0, 0, 2, 1) + ((6) * mn(p, 1, 0, 1, 1, 1, 0, 0) + (-6) * mn(p, 1, 0, 1, 0, 1, 1, 1)))) + (((1) * mn(p, 0, 2, 0, 1, 1, 0, 0) + ((3) * mn(p, 0, 1, 1, 2, 0, 0, 0) + (-6) * mn(p, 0, 1, 1, 1, 0, 1, 1))) + ((9) * mn(p, 0, 1, 1, 0, 0, 2, 0) + ((-3) * mn(p, 0, 0, 2, 1, 1, 0, 1) + (9) * mn(p, 0, 0, 2, 0, 1, 1, 0)))))
            &&& rcb_add(x1, y1, z1, x2, y2, z2, b).1 == ((((-9) * mn(p, 2, 0, 0, 2, 0, 0, 0) + (9) * mn(p, 2, 0, 0, 1, 0, 1, 1)) + ((-9) * mn(p, 2, 0, 0, 0, 0, 2, 0) + ((9) * mn(p, 1, 0, 1, 2, 0, 0, 1) + (-36) * mn(p, 1, 0, 1, 1, 0, 1, 0)))) + (((9) * mn(p, 1, 0, 1, 0, 0, 2, 1) + ((1) * mn(p, 0, 2, 0, 0, 2, 0, 0) + (-9) * mn(p, 0, 0, 2, 2, 0, 0, 0))) + ((9) * mn(p, 0, 0, 2, 1, 0, 1, 1) + ((-9) * mn(p, 0, 0, 2, 0, 0, 2, 2) + (27) * mn(p, 0, 0, 2, 0, 0, 2, 0)))))
            &&& rcb_add(x1, y1, z1, x2, y2, z2, b).2 == ((((3) * mn(p, 2, 0, 0, 1, 1, 0, 0) + (3) * mn(p, 1, 1, 0, 2, 0, 0, 0)) + ((-3) * mn(p, 1, 1, 0, 0, 0, 2, 0) + ((-6) * mn(p, 1, 0, 1, 0, 1, 1, 0) + (1) * mn(p, 0, 2, 0, 0, 1, 1, 0)))) + (((-6) * mn(p, 0, 1, 1, 1, 0, 1, 0) + (1) * mn(p, 0, 1, 1, 0, 2, 0, 0)) + ((3) * mn(p, 0, 1, 1, 0, 0, 2, 1) + ((-3) * mn(p, 0, 0, 2, 1, 1, 0, 0) + (3) * mn(p, 0, 0, 2, 0, 1, 1, 1)))))
        }),
{
    let p = Pt { v0: x1, v1: y1, v2: z1, v3: x2, v4: y2, v5: z2, v6: b };
    lemma_vars(p);
    assert(x1 == (1) * mn(p, 1, 0, 0, 0, 0, 0, 0));
    assert(y1 == (1) * mn(p, 0, 1, 0, 0, 0, 0, 0));
    assert(z1 == (1) * mn(p, 0, 0, 1, 0, 0, 0, 0));
    assert(x2 == (1) * mn(p, 0, 0, 0, 1, 0, 0, 0));
    assert(y2 == (1) * mn(p, 0, 0, 0, 0, 1, 0, 0));
    assert(z2 == (1) * mn(p, 0, 0, 0, 0, 0, 1, 0));
    assert(b == (1) * mn(p, 0, 0, 0, 0, 0, 0, 1));
    aca_prod0(p);
    let n0 = x1 * x2;
    assert(n0 == (1) * mn(p, 1, 0, 0, 1, 0, 0, 0));
    aca_prod2(p);
    let n1 = y1 * y2;
    assert(n1 == (1) * mn(p, 0, 1, 0, 0, 1, 0, 0));
    aca_prod4(p);
    let n2 = z1 * z2;
    assert(n2 == (1) * mn(p, 0, 0, 1, 0, 0, 1, 0));
    let n3 = x1 + y1;
    assert(n3 == ((1) * mn(p, 1, 0, 0, 0, 0, 0, 0) + (1) * mn(p, 0, 1, 0, 0, 0, 0, 0)));
    let n4 = x2 + y2;
    assert(n4 == ((1) * mn(p, 0, 0, 0, 1, 0, 0, 0) + (1) * mn(p, 0, 0, 0, 0, 1, 0, 0)));
    aca_prod6(p);
    let n5 = n3 * n4;
    assert(n5 == (((1) * mn(p, 1, 0, 0, 1, 0, 0, 0) + (1) * mn(p, 1, 0, 0, 0, 1, 0, 0)) + ((1) * mn(p, 0, 1, 0, 1, 0, 0, 0) + (1) * mn(p, 0, 1, 0, 0, 1, 0, 0))));
    let n6 = n5 - n0;
    assert(n6 == ((1) * mn(p, 1, 0, 0, 0, 1, 0, 0) + ((1) * mn(p, 0, 1, 0, 1, 0, 0, 0) + (1) * mn(p, 0, 1, 0, 0, 1, 0, 0))));
    let n7 = n6 - n1;
    assert(n7 == ((1) * mn(p, 1, 0, 0, 0, 1, 0, 0) + (1) * mn(p, 0, 1, 0, 1, 0, 0, 0)));
    let n8 = y1 + z1;
    assert(n8 == ((1) * mn(p, 0, 1, 0, 0, 0, 0, 0) + (1) * mn(p, 0, 0, 1, 0, 0, 0, 0)));
    let n9 = y2 + z2;
    assert(n9 == ((1) * mn(p, 0, 0, 0, 0, 1, 0, 0) + (1) * mn(p, 0, 0, 0, 0, 0, 1, 0)));
    aca_prod8(p);
    let n10 = n8 * n9;
    assert(n10 == (((1) * mn(p, 0, 1, 0, 0, 1, 0, 0) + (1) * mn(p, 0, 1, 0, 0, 0, 1, 0)) + ((1) * mn(p, 0, 0, 1, 0, 1, 0, 0) + (1) * mn(p, 0, 0, 1, 0, 0, 1, 0))));
    let n11 = n10 - n1;
    assert(n11 == ((1) * mn(p, 0, 1, 0, 0, 0, 1, 0) + ((1) * mn(p, 0, 0, 1, 0, 1, 0, 0) + (1) * mn(p, 0, 0, 1, 0, 0, 1, 0))));
    let n12 = n11 - n2;
    assert(n12 == ((1) * mn(p, 0, 1, 0, 0, 0, 1, 0) + (1) * mn(p, 0, 0, 1, 0, 1, 0, 0)));
    let n13 = x1 + z1;
    assert(n13 == ((1) * mn(p, 1, 0, 0, 0, 0, 0, 0) + (1) * mn(p, 0, 0, 1, 0, 0, 0, 0)));
    let n14 = x2 + z2;
    assert(n14 == ((1) * mn(p, 0, 0, 0, 1, 0, 0, 0) + (1) * mn(p, 0, 0, 0, 0, 0, 1, 0)));
    aca_prod10(p);
    let n15 = n13 * n14;
    assert(n15 == (((1) * mn(p, 1, 0, 0, 1, 0, 0, 0) + (1) * mn(p, 1, 0, 0, 0, 0, 1, 0)) + ((1) * mn(p, 0, 0, 1, 1, 0, 0, 0) + (1) * mn(p, 0, 0, 1, 0, 0, 1, 0))));
    let n16 = n15 - n0;
    assert(n16 == ((1) * mn(p, 1, 0, 0, 0, 0, 1, 0) + ((1) * mn(p, 0, 0, 1, 1, 0, 0, 0) + (1) * mn(p, 0, 0, 1, 0, 0, 1, 0))));
    let n17 = n16 - n2;
    assert(n17 == ((1) * mn(p, 1, 0, 0, 0, 0, 1, 0) + (1) * mn(p, 0, 0, 1, 1, 0, 0, 0)));
    aca_prod12(p);
    let n18 = b * n2;
    assert(n18 == (1) * mn(p, 0, 0, 1, 0, 0, 1, 1));
    let n19 = n17 - n18;
    assert(n19 == ((1) * mn(p, 1, 0, 0, 0, 0, 1, 0) + ((1) * mn(p, 0, 0, 1, 1, 0, 0, 0) + (-1) * mn(p, 0, 0, 1, 0, 0, 1, 1))));
    let n20 = 3 * n19;
    assert(n20 == ((3) * mn(p, 1, 0, 0, 0, 0, 1, 0) + ((3) * mn(p, 0, 0, 1, 1, 0, 0, 0) + (-3) * mn(p, 0, 0, 1, 0, 0, 1, 1))));
    let n21 = n1 - n20;
    assert(n21 == (((-3) * mn(p, 1, 0, 0, 0, 0, 1, 0) + (1) * mn(p, 0, 1, 0, 0, 1, 0, 0)) + ((-3) * mn(p, 0, 0, 1, 1, 0, 0, 0) + (3) * mn(p, 0, 0, 1, 0, 0, 1, 1))));
    let n22 = n1 + n20;
    assert(n22 == (((3) * mn(p, 1, 0, 0, 0, 0, 1, 0) + (1) * mn(p, 0, 1, 0, 0, 1, 0, 0)) + ((3) * mn(p, 0, 0, 1, 1, 0, 0, 0) + (-3) * mn(p, 0, 0, 1, 0, 0, 1, 1))));
    aca_prod14(p);
    let n23 = b * n17;
    assert(n23 == ((1) * mn(p, 1, 0, 0, 0, 0, 1, 1) + (1) * mn(p, 0, 0, 1, 1, 0, 0, 1)));
    let n24 = 3 * n2;
    assert(n24 == (3) * mn(p, 0, 0, 1, 0, 0, 1, 0));
    let n25 = n23 - n24;
    assert(n25 == ((1) * mn(p, 1, 0, 0, 0, 0, 1, 1) + ((1) * mn(p, 0, 0, 1, 1, 0, 0, 1) + (-3) * mn(p, 0, 0, 1, 0, 0, 1, 0))));
    let n26 = n25 - n0;
    assert(n26 == (((-1) * mn(p, 1, 0, 0, 1, 0, 0, 0) + (1) * mn(p, 1, 0, 0, 0, 0, 1, 1)) + ((1) * mn(p, 0, 0, 1, 1, 0, 0, 1) + (-3) * mn(p, 0, 0, 1, 0, 0, 1, 0))));
    let n27 = 3 * n26;
    assert(n27 == (((-3) * mn(p, 1, 0, 0, 1, 0, 0, 0) + (3) * mn(p, 1, 0, 0, 0, 0, 1, 1)) + ((3) * mn(p, 0, 0, 1, 1, 0, 0, 1) + (-9) * mn(p, 0, 0, 1, 0, 0, 1, 0))));
    let n28 = 3 * n0;
    assert(n28 == (3) * mn(p, 1, 0, 0, 1, 0, 0, 0));
    let n29 = n28 - n24;
    assert(n29 == ((3) * mn(p, 1, 0, 0, 1, 0, 0, 0) + (-3) * mn(p, 0, 0, 1, 0, 0, 1, 0)));
    aca_prod16(p);
    let n30 = n22 * n7;
    assert(n30 == ((((3) * mn(p, 2, 0, 0, 0, 1, 1, 0) + (3) * mn(p, 1, 1, 0, 1, 0, 1, 0)) + ((1) * mn(p, 1, 1, 0, 0, 2, 0, 0) + (3) * mn(p, 1, 0, 1, 1, 1, 0, 0))) + (((-3) * mn(p, 1, 0, 1, 0, 1, 1, 1) + (1) * mn(p, 0, 2, 0, 1, 1, 0, 0)) + ((3) * mn(p, 0, 1, 1, 2, 0, 0, 0) + (-3) * mn(p, 0, 1, 1, 1, 0, 1, 1)))));
    aca_prod18(p);
    let n31 = n12 * n27;
    assert(n31 == ((((-3) * mn(p, 1, 1, 0, 1, 0, 1, 0) + (3) * mn(p, 1, 1, 0, 0, 0, 2, 1)) + ((-3) * mn(p, 1, 0, 1, 1, 1, 0, 0) + (3) * mn(p, 1, 0, 1, 0, 1, 1, 1))) + (((3) * mn(p, 0, 1, 1, 1, 0, 1, 1) + (-9) * mn(p, 0, 1, 1, 0, 0, 2, 0)) + ((3) * mn(p, 0, 0, 2, 1, 1, 0, 1) + (-9) * mn(p, 0, 0, 2, 0, 1, 1, 0)))));
    let n32 = n30 - n31;
    assert(n32 == ((((3) * mn(p, 2, 0, 0, 0, 1, 1, 0) + ((6) * mn(p, 1, 1, 0, 1, 0, 1, 0) + (1) * mn(p, 1, 1, 0, 0, 2, 0, 0))) + ((-3) * mn(p, 1, 1, 0, 0, 0, 2, 1) + ((6) * mn(p, 1, 0, 1, 1, 1, 0, 0) + (-6) * mn(p, 1, 0, 1, 0, 1, 1, 1)))) + (((1) * mn(p, 0, 2, 0, 1, 1, 0, 0) + ((3) * mn(p, 0, 1, 1, 2, 0, 0, 0) + (-6) * mn(p, 0, 1, 1, 1, 0, 1, 1))) + ((9) * mn(p, 0, 1, 1, 0, 0, 2, 0) + ((-3) * mn(p, 0, 0, 2, 1, 1, 0, 1) + (9) * mn(p, 0, 0, 2, 0, 1, 1, 0))))));
    aca_prod20(p);
    let n33 = n22 * n21;
    assert(n33 == (((-9) * mn(p, 2, 0, 0, 0, 0, 2, 0) + ((-18) * mn(p, 1, 0, 1, 1, 0, 1, 0) + (18) * mn(p, 1, 0, 1, 0, 0, 2, 1))) + (((1) * mn(p, 0, 2, 0, 0, 2, 0, 0) + (-9) * mn(p, 0, 0, 2, 2, 0, 0, 0)) + ((18) * mn(p, 0, 0, 2, 1, 0, 1, 1) + (-9) * mn(p, 0, 0, 2, 0, 0, 2, 2)))));
    aca_prod22(p);
    let n34 = n29 * n27;
    assert(n34 == (((-9) * mn(p, 2, 0, 0, 2, 0, 0, 0) + ((9) * mn(p, 2, 0, 0, 1, 0, 1, 1) + (9) * mn(p, 1, 0, 1, 2, 0, 0, 1))) + (((-18) * mn(p, 1, 0, 1, 1, 0, 1, 0) + (-9) * mn(p, 1, 0, 1, 0, 0, 2, 1)) + ((-9) * mn(p, 0, 0, 2, 1, 0, 1, 1) + (27) * mn(p, 0, 0, 2, 0, 0, 2, 0)))));
    let n35 = n33 + n34;
    assert(n35 == ((((-9) * mn(p, 2, 0, 0, 2, 0, 0, 0) + (9) * mn(p, 2, 0, 0, 1, 0, 1, 1)) + ((-9) * mn(p, 2, 0, 0, 0, 0, 2, 0) + ((9) * mn(p, 1, 0, 1, 2, 0, 0, 1) + (-36) * mn(p, 1, 0, 1, 1, 0, 1, 0)))) + (((9) * mn(p, 1, 0, 1, 0, 0, 2, 1) + ((1) * mn(p, 0, 2, 0, 0, 2, 0, 0) + (-9) * mn(p, 0, 0, 2, 2, 0, 0, 0))) + ((9) * mn(p, 0, 0, 2, 1, 0, 1, 1) + ((-9) * mn(p, 0, 0, 2, 0, 0, 2, 2) + (27) * mn(p, 0, 0, 2, 0, 0, 2, 0))))));
    aca_prod24(p);
    let n36 = n21 * n12;
    assert(n36 == ((((-3) * mn(p, 1, 1, 0, 0, 0, 2, 0) + (-3) * mn(p, 1, 0, 1, 0, 1, 1, 0)) + ((1) * mn(p, 0, 2, 0, 0, 1, 1, 0) + (-3) * mn(p, 0, 1, 1, 1, 0, 1, 0))) + (((1) * mn(p, 0, 1, 1, 0, 2, 0, 0) + (3) * mn(p, 0, 1, 1, 0, 0, 2, 1)) + ((-3) * mn(p, 0, 0, 2, 1, 1, 0, 0) + (3) * mn(p, 0, 0, 2, 0, 1, 1, 1)))));
    aca_prod26(p);
    let n37 = n7 * n29;
    assert(n37 == (((3) * mn(p, 2, 0, 0, 1, 1, 0, 0) + (3) * mn(p, 1, 1, 0, 2, 0, 0, 0)) + ((-3) * mn(p, 1, 0, 1, 0, 1, 1, 0) + (-3) * mn(p, 0, 1, 1, 1, 0, 1, 0))));
    let n38 = n36 + n37;
    assert(n38 == ((((3) * mn(p, 2, 0, 0, 1, 1, 0, 0) + (3) * mn(p, 1, 1, 0, 2, 0, 0, 0)) + ((-3) * mn(p, 1, 1, 0, 0, 0, 2, 0) + ((-6) * mn(p, 1, 0, 1, 0, 1, 1, 0) + (1) * mn(p, 0, 2, 0, 0, 1, 1, 0)))) + (((-6) * mn(p, 0, 1, 1, 1, 0, 1, 0) + (1) * mn(p, 0, 1, 1, 0, 2, 0, 0)) + ((3) * mn(p, 0, 1, 1, 0, 0, 2, 1) + ((-3) * mn(p, 0, 0, 2, 1, 1, 0, 0) + (3) * mn(p, 0, 0, 2, 0, 1, 1, 1))))));
    assert(rcb_add(x1, y1, z1, x2, y2, z2, b).0 == n32);
    assert(rcb_add(x1, y1, z1, x2, y2, z2, b).1 == n35);
    assert(rcb_add(x1, y1, z1, x2, y2, z2, b).2 == n38);
}

#[verifier::rlimit(100)]
proof fn lemma_add_curve_expanded(p: Pt)
    ensures
        curve_poly(((((3) * mn(p, 2, 0, 0, 0, 1, 1, 0) + ((6) * mn(p, 1, 1, 0, 1, 0, 1, 0) + (1) * mn(p, 1, 1, 0, 0, 2, 0, 0))) + ((-3) * mn(p, 1, 1, 0, 0, 0, 2, 1) + ((6) * mn(p, 1, 0, 1, 1, 1, 0, 0) + (-6) * mn(p, 1, 0, 1, 0, 1, 1, 1)))) + (((1) * mn(p, 0, 2, 0, 1, 1, 0, 0) + ((3) * mn(p, 0, 1, 1, 2, 0, 0, 0) + (-6) * mn(p, 0, 1, 1, 1, 0, 1, 1))) + ((9) * mn(p, 0, 1, 1, 0, 0, 2, 0) + ((-3) * mn(p, 0, 0, 2, 1, 1, 0, 1) + (9) * mn(p, 0, 0, 2, 0, 1, 1, 0))))), ((((-9) * mn(p, 2, 0, 0, 2, 0, 0, 0) + (9) * mn(p, 2, 0, 0, 1, 0, 1, 1)) + ((-9) * mn(p, 2, 0, 0, 0, 0, 2, 0) + ((9) * mn(p, 1, 0, 1, 2, 0, 0, 1) + (-36) * mn(p, 1, 0, 1, 1, 0, 1, 0)))) + (((9) * mn(p, 1, 0, 1, 0, 0, 2, 1) + ((1) * mn(p, 0, 2, 0, 0, 2, 0, 0) + (-9) * mn(p, 0, 0, 2, 2, 0, 0, 0))) + ((9) * mn(p, 0, 0, 2, 1, 0, 1, 1) + ((-9) * mn(p, 0, 0, 2, 0, 0, 2, 2) + (27) * mn(p, 0, 0, 2, 0, 0, 2, 0))))), ((((3) * mn(p, 2, 0, 0, 1, 1, 0, 0) + (3) * mn(p, 1, 1, 0, 2, 0, 0, 0)) + ((-3) * mn(p, 1, 1, 0, 0, 0, 2, 0) + ((-6) * mn(p, 1, 0, 1, 0, 1, 1, 0) + (1) * mn(p, 0, 2, 0, 0, 1, 1, 0)))) + (((-6) * mn(p, 0, 1, 1, 1, 0, 1, 0) + (1) * mn(p, 0, 1, 1, 0, 2, 0, 0)) + ((3) * mn(p, 0, 1, 1, 0, 0, 2, 1) + ((-3) * mn(p, 0, 0, 2, 1, 1, 0, 0) + (3) * mn(p, 0, 0, 2, 0, 1, 1, 1))))), p.v6) == (((((((((243) * mn(p, 6, 0, 0, 5, 1, 0, 0) + ((-486) * mn(p, 6, 0, 0, 4, 1, 1, 1) + (-27) * mn(p, 6, 0, 0, 3, 3, 0, 1))) + ((243) * mn(p, 6, 0, 0, 3, 1, 2, 2) + ((486) * mn(p, 6, 0, 0, 3, 1, 2, 0) + (81) * mn(p, 6, 0, 0, 2, 3, 1, 0)))) + (((-486) * mn(p, 6, 0, 0, 2, 1, 3, 1) + ((243) * mn(p, 6, 0, 0, 1, 1, 4, 0) + (-27) * mn(p, 6, 0, 0, 0, 3, 3, 0))) + (((243) * mn(p, 5, 1, 0, 6, 0, 0, 0) + (-486) * mn(p, 5, 1, 0, 5, 0, 1, 1)) + ((-81) * mn(p, 5, 1, 0, 4, 2, 0, 1) + (243) * mn(p, 5, 1, 0, 4, 0, 2, 2))))) + ((((243) * mn(p, 5, 1, 0, 4, 0, 2, 0) + ((324) * mn(p, 5, 1, 0, 3, 2, 1, 0) + (27) * mn(p, 5, 1, 0, 2, 4, 0, 0))) + (((-243) * mn(p, 5, 1, 0, 2, 0, 4, 2) + (-243) * mn(p, 5, 1, 0, 2, 0, 4, 0)) + ((-324) * mn(p, 5, 1, 0, 1, 2, 3, 0) + (486) * mn(p, 5, 1, 0, 1, 0, 5, 1)))) + (((-27) * mn(p, 5, 1, 0, 0, 4, 2, 0) + ((81) * mn(p, 5, 1, 0, 0, 2, 4, 1) + (-243) * mn(p, 5, 1, 0, 0, 0, 6, 0))) + (((-486) * mn(p, 5, 0, 1, 5, 1, 0, 1) + (486) * mn(p, 5, 0, 1, 4, 1, 1, 2)) + ((1458) * mn(p, 5, 0, 1, 4, 1, 1, 0) + (162) * mn(p, 5, 0, 1, 3, 3, 0, 0)))))) + (((((-1944) * mn(p, 5, 0, 1, 3, 1, 2, 1) + ((972) * mn(p, 5, 0, 1, 2, 1, 3, 0) + (-486) * mn(p, 5, 0, 1, 1, 3, 2, 0))) + (((486) * mn(p, 5, 0, 1, 1, 1, 4, 1) + (162) * mn(p, 5, 0, 1, 0, 3, 3, 1)) + ((-486) * mn(p, 5, 0, 1, 0, 1, 5, 0) + (-81) * mn(p, 4, 2, 0, 5, 1, 0, 1)))) + (((486) * mn(p, 4, 2, 0, 4, 1, 1, 0) + ((27) * mn(p, 4, 2, 0, 3, 3, 0, 0) + (-162) * mn(p, 4, 2, 0, 3, 1, 2, 1))) + (((27) * mn(p, 4, 2, 0, 2, 3, 1, 1) + (81) * mn(p, 4, 2, 0, 2, 1, 3, 2)) + ((-648) * mn(p, 4, 2, 0, 2, 1, 3, 0) + (-189) * mn(p, 4, 2, 0, 1, 3, 2, 0))))) + ((((243) * mn(p, 4, 2, 0, 1, 1, 4, 1) + ((-9) * mn(p, 4, 2, 0, 0, 5, 1, 0) + (54) * mn(p, 4, 2, 0, 0, 3, 3, 1))) + (((-81) * mn(p, 4, 2, 0, 0, 1, 5, 2) + (162) * mn(p, 4, 2, 0, 0, 1, 5, 0)) + ((-486) * mn(p, 4, 1, 1, 6, 0, 0, 1) + (486) * mn(p, 4, 1, 1, 5, 0, 1, 2)))) + (((1458) * mn(p, 4, 1, 1, 5, 0, 1, 0) + ((486) * mn(p, 4, 1, 1, 4, 2, 0, 0) + (-1215) * mn(p, 4, 1, 1, 4, 0, 2, 1))) + (((-162) * mn(p, 4, 1, 1, 3, 2, 1, 1) + (-972) * mn(p, 4, 1, 1, 3, 0, 3, 2)) + ((-972) * mn(p, 4, 1, 1, 3, 0, 3, 0) + (-27) * mn(p, 4, 1, 1, 2, 4, 0, 1))))))) + ((((((-1944) * mn(p, 4, 1, 1, 2, 2, 2, 0) + ((243) * mn(p, 4, 1, 1, 2, 0, 4, 3) + (3888) * mn(p, 4, 1, 1, 2, 0, 4, 1))) + (((-162) * mn(p, 4, 1, 1, 1, 4, 1, 0) + (1458) * mn(p, 4, 1, 1, 1, 2, 3, 1)) + ((-972) * mn(p, 4, 1, 1, 1, 0, 5, 2) + (-2430) * mn(p, 4, 1, 1, 1, 0, 5, 0)))) + (((108) * mn(p, 4, 1, 1, 0, 4, 2, 1) + ((-324) * mn(p, 4, 1, 1, 0, 2, 4, 2) + (162) * mn(p, 4, 1, 1, 0, 2, 4, 0))) + (((729) * mn(p, 4, 1, 1, 0, 0, 6, 1) + (243) * mn(p, 4, 0, 2, 5, 1, 0, 2)) + ((243) * mn(p, 4, 0, 2, 5, 1, 0, 0) + (-1215) * mn(p, 4, 0, 2, 4, 1, 1, 1))))) + ((((-243) * mn(p, 4, 0, 2, 3, 1, 2, 2) + ((-1458) * mn(p, 4, 0, 2, 3, 1, 2, 0) + (-81) * mn(p, 4, 0, 2, 2, 3, 1, 2))) + (((-891) * mn(p, 4, 0, 2, 2, 3, 1, 0) + (-243) * mn(p, 4, 0, 2, 2, 1, 3, 3)) + ((5832) * mn(p, 4, 0, 2, 2, 1, 3, 1) + (1215) * mn(p, 4, 0, 2, 1, 3, 2, 1)))) + (((-729) * mn(p, 4, 0, 2, 1, 1, 4, 2) + ((-5589) * mn(p, 4, 0, 2, 1, 1, 4, 0) + (-324) * mn(p, 4, 0, 2, 0, 3, 3, 2))) + (((81) * mn(p, 4, 0, 2, 0, 3, 3, 0) + (1215) * mn(p, 4, 0, 2, 0, 1, 5, 1)) + ((-27) * mn(p, 3, 3, 0, 6, 0, 0, 1) + (162) * mn(p, 3, 3, 0, 5, 0, 1, 0)))))) + (((((27) * mn(p, 3, 3, 0, 4, 2, 0, 0) + ((-540) * mn(p, 3, 3, 0, 3, 0, 3, 0) + (-162) * mn(p, 3, 3, 0, 2, 2, 2, 0))) + (((405) * mn(p, 3, 3, 0, 2, 0, 4, 1) + (-18) * mn(p, 3, 3, 0, 1, 4, 1, 0)) + ((108) * mn(p, 3, 3, 0, 1, 2, 3, 1) + (-162) * mn(p, 3, 3, 0, 1, 0, 5, 2)))) + (((162) * mn(p, 3, 3, 0, 1, 0, 5, 0) + ((-1) * mn(p, 3, 3, 0, 0, 6, 0, 0) + (9) * mn(p, 3, 3, 0, 0, 4, 2, 1))) + (((-27) * mn(p, 3, 3, 0, 0, 2, 4, 2) + (27) * mn(p, 3, 3, 0, 0, 2, 4, 0)) + ((27) * mn(p, 3, 3, 0, 0, 0, 6, 3) + (-54) * mn(p, 3, 3, 0, 0, 0, 6, 1))))) + ((((324) * mn(p, 3, 2, 1, 5, 1, 0, 0) + ((-162) * mn(p, 3, 2, 1, 4, 1, 1, 1) + (-1944) * mn(p, 3, 2, 1, 3, 1, 2, 0))) + (((-540) * mn(p, 3, 2, 1, 2, 3, 1, 0) + (2268) * mn(p, 3, 2, 1, 2, 1, 3, 1)) + ((540) * mn(p, 3, 2, 1, 1, 3, 2, 1) + (-972) * mn(p, 3, 2, 1, 1, 1, 4, 2)))) + (((324) * mn(p, 3, 2, 1, 1, 1, 4, 0) + ((18) * mn(p, 3, 2, 1, 0, 5, 1, 1) + (-108) * mn(p, 3, 2, 1, 0, 3, 3, 2))) + (((-108) * mn(p, 3, 2, 1, 0, 3, 3, 0) + (162) * mn(p, 3, 2, 1, 0, 1, 5, 3)) + ((-162) * mn(p, 3, 2, 1, 0, 1, 5, 1) + (243) * mn(p, 3, 1, 2, 6, 0, 0, 2)))))))) + (((((((486) * mn(p, 3, 1, 2, 6, 0, 0, 0) + ((-1944) * mn(p, 3, 1, 2, 5, 0, 1, 1) + (-162) * mn(p, 3, 1, 2, 4, 2, 0, 1))) + ((-243) * mn(p, 3, 1, 2, 4, 0, 2, 2) + ((-1458) * mn(p, 3, 1, 2, 4, 0, 2, 0) + (-1944) * mn(p, 3, 1, 2, 3, 2, 1, 0)))) + (((9720) * mn(p, 3, 1, 2, 3, 0, 3, 1) + ((-54) * mn(p, 3, 1, 2, 2, 4, 0, 0) + (3888) * mn(p, 3, 1, 2, 2, 2, 2, 1))) + (((-4617) * mn(p, 3, 1, 2, 2, 0, 4, 2) + (-8262) * mn(p, 3, 1, 2, 2, 0, 4, 0)) + ((324) * mn(p, 3, 1, 2, 1, 4, 1, 1) + (-1944) * mn(p, 3, 1, 2, 1, 2, 3, 2))))) + ((((-648) * mn(p, 3, 1, 2, 1, 2, 3, 0) + ((972) * mn(p, 3, 1, 2, 1, 0, 5, 3) + (3888) * mn(p, 3, 1, 2, 1, 0, 5, 1))) + (((-108) * mn(p, 3, 1, 2, 0, 4, 2, 2) + (-162) * mn(p, 3, 1, 2, 0, 4, 2, 0)) + ((324) * mn(p, 3, 1, 2, 0, 2, 4, 3) + (162) * mn(p, 3, 1, 2, 0, 2, 4, 1)))) + (((-1215) * mn(p, 3, 1, 2, 0, 0, 6, 2) + ((1458) * mn(p, 3, 1, 2, 0, 0, 6, 0) + (-972) * mn(p, 3, 0, 3, 4, 1, 1, 2))) + (((-972) * mn(p, 3, 0, 3, 4, 1, 1, 0) + (-540) * mn(p, 3, 0, 3, 3, 3, 0, 0)) + ((9720) * mn(p, 3, 0, 3, 3, 1, 2, 1) + (1620) * mn(p, 3, 0, 3, 2, 3, 1, 1)))))) + (((((-3888) * mn(p, 3, 0, 3, 2, 1, 3, 2) + ((-13608) * mn(p, 3, 0, 3, 2, 1, 3, 0) + (-972) * mn(p, 3, 0, 3, 1, 3, 2, 2))) + (((-972) * mn(p, 3, 0, 3, 1, 3, 2, 0) + (972) * mn(p, 3, 0, 3, 1, 1, 4, 3)) + ((5832) * mn(p, 3, 0, 3, 1, 1, 4, 1) + (216) * mn(p, 3, 0, 3, 0, 3, 3, 3)))) + (((216) * mn(p, 3, 0, 3, 0, 3, 3, 1) + ((-1944) * mn(p, 3, 0, 3, 0, 1, 5, 2) + (2916) * mn(p, 3, 0, 3, 0, 1, 5, 0))) + (((27) * mn(p, 2, 4, 0, 5, 1, 0, 0) + (-27) * mn(p, 2, 4, 0, 4, 1, 1, 1)) + ((-54) * mn(p, 2, 4, 0, 3, 1, 2, 0) + (-27) * mn(p, 2, 4, 0, 2, 3, 1, 0))))) + ((((108) * mn(p, 2, 4, 0, 2, 1, 3, 1) + ((27) * mn(p, 2, 4, 0, 1, 3, 2, 1) + (-27) * mn(p, 2, 4, 0, 1, 1, 4, 2))) + (((-81) * mn(p, 2, 4, 0, 1, 1, 4, 0) + (-27) * mn(p, 2, 4, 0, 0, 3, 3, 0)) + ((27) * mn(p, 2, 4, 0, 0, 1, 5, 1) + (81) * mn(p, 2, 3, 1, 6, 0, 0, 0)))) + (((27) * mn(p, 2, 3, 1, 4, 2, 0, 1) + ((-81) * mn(p, 2, 3, 1, 4, 0, 2, 2) + (-891) * mn(p, 2, 3, 1, 4, 0, 2, 0))) + (((-540) * mn(p, 2, 3, 1, 3, 2, 1, 0) + (1620) * mn(p, 2, 3, 1, 3, 0, 3, 1)) + ((-27) * mn(p, 2, 3, 1, 2, 4, 0, 0) + (648) * mn(p, 2, 3, 1, 2, 2, 2, 1))))))) + ((((((-729) * mn(p, 2, 3, 1, 2, 0, 4, 2) + ((-729) * mn(p, 2, 3, 1, 2, 0, 4, 0) + (54) * mn(p, 2, 3, 1, 1, 4, 1, 1))) + (((-216) * mn(p, 2, 3, 1, 1, 2, 3, 2) + (-324) * mn(p, 2, 3, 1, 1, 2, 3, 0)) + ((162) * mn(p, 2, 3, 1, 1, 0, 5, 3) + (324) * mn(p, 2, 3, 1, 1, 0, 5, 1)))) + (((-81) * mn(p, 2, 3, 1, 0, 4, 2, 0) + ((189) * mn(p, 2, 3, 1, 0, 2, 4, 1) + (-162) * mn(p, 2, 3, 1, 0, 0, 6, 2))) + (((243) * mn(p, 2, 3, 1, 0, 0, 6, 0) + (-1944) * mn(p, 2, 2, 2, 4, 1, 1, 0)) + ((-162) * mn(p, 2, 2, 2, 3, 3, 0, 0) + (3888) * mn(p, 2, 2, 2, 3, 1, 2, 1))))) + ((((648) * mn(p, 2, 2, 2, 2, 3, 1, 1) + ((-2430) * mn(p, 2, 2, 2, 2, 1, 3, 2) + (-1944) * mn(p, 2, 2, 2, 2, 1, 3, 0))) + (((-486) * mn(p, 2, 2, 2, 1, 3, 2, 2) + (-162) * mn(p, 2, 2, 2, 1, 3, 2, 0)) + ((486) * mn(p, 2, 2, 2, 1, 1, 4, 3) + (1944) * mn(p, 2, 2, 2, 1, 1, 4, 1)))) + (((-54) * mn(p, 2, 2, 2, 0, 5, 1, 0) + ((486) * mn(p, 2, 2, 2, 0, 3, 3, 1) + (-486) * mn(p, 2, 2, 2, 0, 1, 5, 2))) + (((-486) * mn(p, 2, 1, 3, 6, 0, 0, 1) + (972) * mn(p, 2, 1, 3, 5, 0, 1, 0)) + ((81) * mn(p, 2, 1, 3, 4, 2, 0, 2) + (-648) * mn(p, 2, 1, 3, 4, 2, 0, 0)))))) + (((((-243) * mn(p, 2, 1, 3, 4, 0, 2, 3) + ((5832) * mn(p, 2, 1, 3, 4, 0, 2, 1) + (2268) * mn(p, 2, 1, 3, 3, 2, 1, 1))) + (((-3888) * mn(p, 2, 1, 3, 3, 0, 3, 2) + (-13608) * mn(p, 2, 1, 3, 3, 0, 3, 0)) + ((108) * mn(p, 2, 1, 3, 2, 4, 0, 1) + (-2430) * mn(p, 2, 1, 3, 2, 2, 2, 2)))) + (((-1944) * mn(p, 2, 1, 3, 2, 2, 2, 0) + ((2430) * mn(p, 2, 1, 3, 2, 0, 4, 3) + (7290) * mn(p, 2, 1, 3, 2, 0, 4, 1))) + (((-162) * mn(p, 2, 1, 3, 1, 4, 1, 2) + (-324) * mn(p, 2, 1, 3, 1, 4, 1, 0)) + ((648) * mn(p, 2, 1, 3, 1, 2, 3, 3) + (2916) * mn(p, 2, 1, 3, 1, 2, 3, 1))))) + ((((-486) * mn(p, 2, 1, 3, 1, 0, 5, 4) + ((-4860) * mn(p, 2, 1, 3, 1, 0, 5, 2) + (8748) * mn(p, 2, 1, 3, 1, 0, 5, 0))) + (((378) * mn(p, 2, 1, 3, 0, 4, 2, 1) + (-891) * mn(p, 2, 1, 3, 0, 2, 4, 2)) + ((1215) * mn(p, 2, 1, 3, 0, 0, 6, 3) + (-2916) * mn(p, 2, 1, 3, 0, 0, 6, 1)))) + (((-243) * mn(p, 2, 0, 4, 5, 1, 0, 2) + ((-243) * mn(p, 2, 0, 4, 5, 1, 0, 0) + (243) * mn(p, 2, 0, 4, 4, 1, 1, 3))) + (((3888) * mn(p, 2, 0, 4, 4, 1, 1, 1) + (405) * mn(p, 2, 0, 4, 3, 3, 0, 1)) + ((-4617) * mn(p, 2, 0, 4, 3, 1, 2, 2) + (-8262) * mn(p, 2, 0, 4, 3, 1, 2, 0))))))))) + ((((((((-729) * mn(p, 2, 0, 4, 2, 3, 1, 2) + ((-729) * mn(p, 2, 0, 4, 2, 3, 1, 0) + (2430) * mn(p, 2, 0, 4, 2, 1, 3, 3))) + ((7290) * mn(p, 2, 0, 4, 2, 1, 3, 1) + ((243) * mn(p, 2, 0, 4, 1, 3, 2, 3) + (1458) * mn(p, 2, 0, 4, 1, 3, 2, 1)))) + (((-243) * mn(p, 2, 0, 4, 1, 1, 4, 4) + ((-8019) * mn(p, 2, 0, 4, 1, 1, 4, 2) + (15309) * mn(p, 2, 0, 4, 1, 1, 4, 0))) + (((-567) * mn(p, 2, 0, 4, 0, 3, 3, 2) + (243) * mn(p, 2, 0, 4, 0, 3, 3, 0)) + ((1701) * mn(p, 2, 0, 4, 0, 1, 5, 3) + (-4374) * mn(p, 2, 0, 4, 0, 1, 5, 1))))) + ((((-162) * mn(p, 1, 4, 1, 4, 1, 1, 0) + ((-18) * mn(p, 1, 4, 1, 3, 3, 0, 0) + (324) * mn(p, 1, 4, 1, 3, 1, 2, 1))) + (((54) * mn(p, 1, 4, 1, 2, 3, 1, 1) + (-162) * mn(p, 1, 4, 1, 2, 1, 3, 2)) + ((-324) * mn(p, 1, 4, 1, 2, 1, 3, 0) + (-162) * mn(p, 1, 4, 1, 1, 3, 2, 0)))) + (((324) * mn(p, 1, 4, 1, 1, 1, 4, 1) + ((36) * mn(p, 1, 4, 1, 0, 3, 3, 1) + (-162) * mn(p, 1, 4, 1, 0, 1, 5, 0))) + (((-486) * mn(p, 1, 3, 2, 5, 0, 1, 0) + (-189) * mn(p, 1, 3, 2, 4, 2, 0, 0)) + ((1215) * mn(p, 1, 3, 2, 4, 0, 2, 1) + (540) * mn(p, 1, 3, 2, 3, 2, 1, 1)))))) + (((((-972) * mn(p, 1, 3, 2, 3, 0, 3, 2) + ((-972) * mn(p, 1, 3, 2, 3, 0, 3, 0) + (27) * mn(p, 1, 3, 2, 2, 4, 0, 1))) + (((-486) * mn(p, 1, 3, 2, 2, 2, 2, 2) + (-162) * mn(p, 1, 3, 2, 2, 2, 2, 0)) + ((243) * mn(p, 1, 3, 2, 2, 0, 4, 3) + (1458) * mn(p, 1, 3, 2, 2, 0, 4, 1)))) + (((-162) * mn(p, 1, 3, 2, 1, 4, 1, 0) + ((864) * mn(p, 1, 3, 2, 1, 2, 3, 1) + (-486) * mn(p, 1, 3, 2, 1, 0, 5, 2))) + (((-486) * mn(p, 1, 3, 2, 1, 0, 5, 0) + (3) * mn(p, 1, 3, 2, 0, 6, 0, 0)) + ((54) * mn(p, 1, 3, 2, 0, 4, 2, 1) + (135) * mn(p, 1, 3, 2, 0, 2, 4, 2))))) + ((((-1053) * mn(p, 1, 3, 2, 0, 2, 4, 0) + ((243) * mn(p, 1, 3, 2, 0, 0, 6, 1) + (-324) * mn(p, 1, 2, 3, 5, 1, 0, 0))) + (((1458) * mn(p, 1, 2, 3, 4, 1, 1, 1) + (108) * mn(p, 1, 2, 3, 3, 3, 0, 1)) + ((-1944) * mn(p, 1, 2, 3, 3, 1, 2, 2) + (-648) * mn(p, 1, 2, 3, 3, 1, 2, 0)))) + (((-216) * mn(p, 1, 2, 3, 2, 3, 1, 2) + ((-324) * mn(p, 1, 2, 3, 2, 3, 1, 0) + (648) * mn(p, 1, 2, 3, 2, 1, 3, 3))) + (((2916) * mn(p, 1, 2, 3, 2, 1, 3, 1) + (864) * mn(p, 1, 2, 3, 1, 3, 2, 1)) + ((-972) * mn(p, 1, 2, 3, 1, 1, 4, 2) + (-2916) * mn(p, 1, 2, 3, 1, 1, 4, 0))))))) + ((((((18) * mn(p, 1, 2, 3, 0, 5, 1, 1) + ((216) * mn(p, 1, 2, 3, 0, 3, 3, 2) + (-1620) * mn(p, 1, 2, 3, 0, 3, 3, 0))) + (((-162) * mn(p, 1, 2, 3, 0, 1, 5, 3) + (1458) * mn(p, 1, 2, 3, 0, 1, 5, 1)) + ((243) * mn(p, 1, 1, 4, 6, 0, 0, 0) + (486) * mn(p, 1, 1, 4, 5, 0, 1, 1)))) + (((243) * mn(p, 1, 1, 4, 4, 2, 0, 1) + ((-729) * mn(p, 1, 1, 4, 4, 0, 2, 2) + (-5589) * mn(p, 1, 1, 4, 4, 0, 2, 0))) + (((-972) * mn(p, 1, 1, 4, 3, 2, 1, 2) + (324) * mn(p, 1, 1, 4, 3, 2, 1, 0)) + ((972) * mn(p, 1, 1, 4, 3, 0, 3, 3) + (5832) * mn(p, 1, 1, 4, 3, 0, 3, 1))))) + ((((-27) * mn(p, 1, 1, 4, 2, 4, 0, 2) + ((-81) * mn(p, 1, 1, 4, 2, 4, 0, 0) + (486) * mn(p, 1, 1, 4, 2, 2, 2, 3))) + (((1944) * mn(p, 1, 1, 4, 2, 2, 2, 1) + (-243) * mn(p, 1, 1, 4, 2, 0, 4, 4)) + ((-8019) * mn(p, 1, 1, 4, 2, 0, 4, 2) + (15309) * mn(p, 1, 1, 4, 2, 0, 4, 0)))) + (((324) * mn(p, 1, 1, 4, 1, 4, 1, 1) + ((-972) * mn(p, 1, 1, 4, 1, 2, 3, 2) + (-2916) * mn(p, 1, 1, 4, 1, 2, 3, 0))) + (((3888) * mn(p, 1, 1, 4, 1, 0, 5, 3) + (-10206) * mn(p, 1, 1, 4, 1, 0, 5, 1)) + ((27) * mn(p, 1, 1, 4, 0, 4, 2, 2) + (-567) * mn(p, 1, 1, 4, 0, 4, 2, 0)))))) + (((((-162) * mn(p, 1, 1, 4, 0, 2, 4, 3) + ((1701) * mn(p, 1, 1, 4, 0, 2, 4, 1) + (-729) * mn(p, 1, 1, 4, 0, 0, 6, 4))) + (((2916) * mn(p, 1, 1, 4, 0, 0, 6, 2) + (-2187) * mn(p, 1, 1, 4, 0, 0, 6, 0)) + ((486) * mn(p, 1, 0, 5, 5, 1, 0, 1) + (-972) * mn(p, 1, 0, 5, 4, 1, 1, 2)))) + (((-2430) * mn(p, 1, 0, 5, 4, 1, 1, 0) + ((-162) * mn(p, 1, 0, 5, 3, 3, 0, 2) + (162) * mn(p, 1, 0, 5, 3, 3, 0, 0))) + (((972) * mn(p, 1, 0, 5, 3, 1, 2, 3) + (3888) * mn(p, 1, 0, 5, 3, 1, 2, 1)) + ((162) * mn(p, 1, 0, 5, 2, 3, 1, 3) + (324) * mn(p, 1, 0, 5, 2, 3, 1, 1))))) + ((((-486) * mn(p, 1, 0, 5, 2, 1, 3, 4) + ((-4860) * mn(p, 1, 0, 5, 2, 1, 3, 2) + (8748) * mn(p, 1, 0, 5, 2, 1, 3, 0))) + (((-486) * mn(p, 1, 0, 5, 1, 3, 2, 2) + (-486) * mn(p, 1, 0, 5, 1, 3, 2, 0)) + ((3888) * mn(p, 1, 0, 5, 1, 1, 4, 3) + (-10206) * mn(p, 1, 0, 5, 1, 1, 4, 1)))) + (((486) * mn(p, 1, 0, 5, 0, 3, 3, 1) + ((-972) * mn(p, 1, 0, 5, 0, 1, 5, 4) + (4374) * mn(p, 1, 0, 5, 0, 1, 5, 2))) + (((-4374) * mn(p, 1, 0, 5, 0, 1, 5, 0) + (-1) * mn(p, 0, 6, 0, 3, 3, 0, 0)) + ((3) * mn(p, 0, 6, 0, 1, 3, 2, 0) + (1) * mn(p, 0, 6, 0, 0, 5, 1, 0)))))))) + (((((((-1) * mn(p, 0, 6, 0, 0, 3, 3, 1) + ((-9) * mn(p, 0, 5, 1, 4, 2, 0, 0) + (18) * mn(p, 0, 5, 1, 3, 2, 1, 1))) + ((-54) * mn(p, 0, 5, 1, 2, 2, 2, 0) + ((18) * mn(p, 0, 5, 1, 1, 2, 3, 1) + (1) * mn(p, 0, 5, 1, 0, 6, 0, 0)))) + (((-9) * mn(p, 0, 5, 1, 0, 2, 4, 2) + ((27) * mn(p, 0, 5, 1, 0, 2, 4, 0) + (-27) * mn(p, 0, 4, 2, 5, 1, 0, 0))) + (((108) * mn(p, 0, 4, 2, 4, 1, 1, 1) + (9) * mn(p, 0, 4, 2, 3, 3, 0, 1)) + ((-108) * mn(p, 0, 4, 2, 3, 1, 2, 2) + (-162) * mn(p, 0, 4, 2, 3, 1, 2, 0))))) + ((((-81) * mn(p, 0, 4, 2, 2, 3, 1, 0) + ((378) * mn(p, 0, 4, 2, 2, 1, 3, 1) + (54) * mn(p, 0, 4, 2, 1, 3, 2, 1))) + (((27) * mn(p, 0, 4, 2, 1, 1, 4, 2) + (-567) * mn(p, 0, 4, 2, 1, 1, 4, 0)) + ((-45) * mn(p, 0, 4, 2, 0, 3, 3, 2) + (135) * mn(p, 0, 4, 2, 0, 3, 3, 0)))) + (((-27) * mn(p, 0, 4, 2, 0, 1, 5, 3) + ((162) * mn(p, 0, 4, 2, 0, 1, 5, 1) + (-27) * mn(p, 0, 3, 3, 6, 0, 0, 0))) + (((162) * mn(p, 0, 3, 3, 5, 0, 1, 1) + (54) * mn(p, 0, 3, 3, 4, 2, 0, 1)) + ((-324) * mn(p, 0, 3, 3, 4, 0, 2, 2) + (81) * mn(p, 0, 3, 3, 4, 0, 2, 0)))))) + (((((-108) * mn(p, 0, 3, 3, 3, 2, 1, 2) + ((-108) * mn(p, 0, 3, 3, 3, 2, 1, 0) + (216) * mn(p, 0, 3, 3, 3, 0, 3, 3))) + (((216) * mn(p, 0, 3, 3, 3, 0, 3, 1) + (-27) * mn(p, 0, 3, 3, 2, 4, 0, 0)) + ((486) * mn(p, 0, 3, 3, 2, 2, 2, 1) + (-567) * mn(p, 0, 3, 3, 2, 0, 4, 2)))) + (((243) * mn(p, 0, 3, 3, 2, 0, 4, 0) + ((36) * mn(p, 0, 3, 3, 1, 4, 1, 1) + (216) * mn(p, 0, 3, 3, 1, 2, 3, 2))) + (((-1620) * mn(p, 0, 3, 3, 1, 2, 3, 0) + (486) * mn(p, 0, 3, 3, 1, 0, 5, 1)) + ((-1) * mn(p, 0, 3, 3, 0, 6, 0, 1) + (-45) * mn(p, 0, 3, 3, 0, 4, 2, 2))))) + ((((135) * mn(p, 0, 3, 3, 0, 4, 2, 0) + ((-135) * mn(p, 0, 3, 3, 0, 2, 4, 3) + (648) * mn(p, 0, 3, 3, 0, 2, 4, 1))) + (((-27) * mn(p, 0, 3, 3, 0, 0, 6, 4) + (243) * mn(p, 0, 3, 3, 0, 0, 6, 2)) + ((-729) * mn(p, 0, 3, 3, 0, 0, 6, 0) + (81) * mn(p, 0, 2, 4, 5, 1, 0, 1)))) + (((-324) * mn(p, 0, 2, 4, 4, 1, 1, 2) + ((162) * mn(p, 0, 2, 4, 4, 1, 1, 0) + (-27) * mn(p, 0, 2, 4, 3, 3, 0, 2))) + (((27) * mn(p, 0, 2, 4, 3, 3, 0, 0) + (324) * mn(p, 0, 2, 4, 3, 1, 2, 3)) + ((162) * mn(p, 0, 2, 4, 3, 1, 2, 1) + (189) * mn(p, 0, 2, 4, 2, 3, 1, 1))))))) + ((((((-891) * mn(p, 0, 2, 4, 2, 1, 3, 2) + ((135) * mn(p, 0, 2, 4, 1, 3, 2, 2) + (-1053) * mn(p, 0, 2, 4, 1, 3, 2, 0))) + (((-162) * mn(p, 0, 2, 4, 1, 1, 4, 3) + (1701) * mn(p, 0, 2, 4, 1, 1, 4, 1)) + ((-9) * mn(p, 0, 2, 4, 0, 5, 1, 2) + (27) * mn(p, 0, 2, 4, 0, 5, 1, 0)))) + (((-135) * mn(p, 0, 2, 4, 0, 3, 3, 3) + ((648) * mn(p, 0, 2, 4, 0, 3, 3, 1) + (243) * mn(p, 0, 2, 4, 0, 1, 5, 2))) + (((-1458) * mn(p, 0, 2, 4, 0, 1, 5, 0) + (-486) * mn(p, 0, 1, 5, 5, 0, 1, 0)) + ((-81) * mn(p, 0, 1, 5, 4, 2, 0, 2) + (162) * mn(p, 0, 1, 5, 4, 2, 0, 0))))) + ((((1215) * mn(p, 0, 1, 5, 4, 0, 2, 1) + ((162) * mn(p, 0, 1, 5, 3, 2, 1, 3) + (-162) * mn(p, 0, 1, 5, 3, 2, 1, 1))) + (((-1944) * mn(p, 0, 1, 5, 3, 0, 3, 2) + (2916) * mn(p, 0, 1, 5, 3, 0, 3, 0)) + ((27) * mn(p, 0, 1, 5, 2, 4, 0, 1) + (-486) * mn(p, 0, 1, 5, 2, 2, 2, 2)))) + (((1701) * mn(p, 0, 1, 5, 2, 0, 4, 3) + ((-4374) * mn(p, 0, 1, 5, 2, 0, 4, 1) + (-162) * mn(p, 0, 1, 5, 1, 4, 1, 0))) + (((-162) * mn(p, 0, 1, 5, 1, 2, 3, 3) + (1458) * mn(p, 0, 1, 5, 1, 2, 3, 1)) + ((-972) * mn(p, 0, 1, 5, 1, 0, 5, 4) + (4374) * mn(p, 0, 1, 5, 1, 0, 5, 2)))))) + (((((-4374) * mn(p, 0, 1, 5, 1, 0, 5, 0) + ((-27) * mn(p, 0, 1, 5, 0, 4, 2, 3) + (162) * mn(p, 0, 1, 5, 0, 4, 2, 1))) + (((243) * mn(p, 0, 1, 5, 0, 2, 4, 2) + (-1458) * mn(p, 0, 1, 5, 0, 2, 4, 0)) + ((243) * mn(p, 0, 1, 5, 0, 0, 6, 5) + (-1458) * mn(p, 0, 1, 5, 0, 0, 6, 3)))) + (((2187) * mn(p, 0, 1, 5, 0, 0, 6, 1) + ((-243) * mn(p, 0, 0, 6, 5, 1, 0, 0) + (729) * mn(p, 0, 0, 6, 4, 1, 1, 1))) + (((27) * mn(p, 0, 0, 6, 3, 3, 0, 3) + (-54) * mn(p, 0, 0, 6, 3, 3, 0, 1)) + ((-1215) * mn(p, 0, 0, 6, 3, 1, 2, 2) + (1458) * mn(p, 0, 0, 6, 3, 1, 2, 0))))) + ((((-162) * mn(p, 0, 0, 6, 2, 3, 1, 2) + ((243) * mn(p, 0, 0, 6, 2, 3, 1, 0) + (1215) * mn(p, 0, 0, 6, 2, 1, 3, 3))) + (((-2916) * mn(p, 0, 0, 6, 2, 1, 3, 1) + (243) * mn(p, 0, 0, 6, 1, 3, 2, 1)) + ((-729) * mn(p, 0, 0, 6, 1, 1, 4, 4) + (2916) * mn(p, 0, 0, 6, 1, 1, 4, 2)))) + (((-2187) * mn(p, 0, 0, 6, 1, 1, 4, 0) + ((-27) * mn(p, 0, 0, 6, 0, 3, 3, 4) + (243) * mn(p, 0, 0, 6, 0, 3, 3, 2))) + (((-729) * mn(p, 0, 0, 6, 0, 3, 3, 0) + (243) * mn(p, 0, 0, 6, 0, 1, 5, 5)) + ((-1458) * mn(p, 0, 0, 6, 0, 1, 5, 3) + (2187) * mn(p, 0, 0, 6, 0, 1, 5, 1)))))))))),
{
    lemma_vars(p);
    let xx = ((((3) * mn(p, 2, 0, 0, 0, 1, 1, 0) + ((6) * mn(p, 1, 1, 0, 1, 0, 1, 0) + (1) * mn(p, 1, 1, 0, 0, 2, 0, 0))) + ((-3) * mn(p, 1, 1, 0, 0, 0, 2, 1) + ((6) * mn(p, 1, 0, 1, 1, 1, 0, 0) + (-6) * mn(p, 1, 0, 1, 0, 1, 1, 1)))) + (((1) * mn(p, 0, 2, 0, 1, 1, 0, 0) + ((3) * mn(p, 0, 1, 1, 2, 0, 0, 0) + (-6) * mn(p, 0, 1, 1, 1, 0, 1, 1))) + ((9) * mn(p, 0, 1, 1, 0, 0, 2, 0) + ((-3) * mn(p, 0, 0, 2, 1, 1, 0, 1) + (9) * mn(p, 0, 0, 2, 0, 1, 1, 0)))));
    let yy = ((((-9) * mn(p, 2, 0, 0, 2, 0, 0, 0) + (9) * mn(p, 2, 0, 0, 1, 0, 1, 1)) + ((-9) * mn(p, 2, 0, 0, 0, 0, 2, 0) + ((9) * mn(p, 1, 0, 1, 2, 0, 0, 1) + (-36) * mn(p, 1, 0, 1, 1, 0, 1, 0)))) + (((9) * mn(p, 1, 0, 1, 0, 0, 2, 1) + ((1) * mn(p, 0, 2, 0, 0, 2, 0, 0) + (-9) * mn(p, 0, 0, 2, 2, 0, 0, 0))) + ((9) * mn(p, 0, 0, 2, 1, 0, 1, 1) + ((-9) * mn(p, 0, 0, 2, 0, 0, 2, 2) + (27) * mn(p, 0, 0, 2, 0, 0, 2, 0)))));
    let zz = ((((3) * mn(p, 2, 0, 0, 1, 1, 0, 0) + (3) * mn(p, 1, 1, 0, 2, 0, 0, 0)) + ((-3) * mn(p, 1, 1, 0, 0, 0, 2, 0) + ((-6) * mn(p, 1, 0, 1, 0, 1, 1, 0) + (1) * mn(p, 0, 2, 0, 0, 1, 1, 0)))) + (((-6) * mn(p, 0, 1, 1, 1, 0, 1, 0) + (1) * mn(p, 0, 1, 1, 0, 2, 0, 0)) + ((3) * mn(p, 0, 1, 1, 0, 0, 2, 1) + ((-3) * mn(p, 0, 0, 2, 1, 1, 0, 0) + (3) * mn(p, 0, 0, 2, 0, 1, 1, 1)))));
    assert(p.v6 == (1) * mn(p, 0, 0, 0, 0, 0, 0, 1));
    acb_prod0(p);
    let n0 = yy * yy;
    assert(n0 == ((((((81) * mn(p, 4, 0, 0, 4, 0, 0, 0) + ((-162) * mn(p, 4, 0, 0, 3, 0, 1, 1) + (81) * mn(p, 4, 0, 0, 2, 0, 2, 2))) + ((162) * mn(p, 4, 0, 0, 2, 0, 2, 0) + ((-162) * mn(p, 4, 0, 0, 1, 0, 3, 1) + (81) * mn(p, 4, 0, 0, 0, 0, 4, 0)))) + (((-162) * mn(p, 3, 0, 1, 4, 0, 0, 1) + ((162) * mn(p, 3, 0, 1, 3, 0, 1, 2) + (648) * mn(p, 3, 0, 1, 3, 0, 1, 0))) + ((-972) * mn(p, 3, 0, 1, 2, 0, 2, 1) + ((162) * mn(p, 3, 0, 1, 1, 0, 3, 2) + (648) * mn(p, 3, 0, 1, 1, 0, 3, 0))))) + ((((-162) * mn(p, 3, 0, 1, 0, 0, 4, 1) + ((-18) * mn(p, 2, 2, 0, 2, 2, 0, 0) + (18) * mn(p, 2, 2, 0, 1, 2, 1, 1))) + ((-18) * mn(p, 2, 2, 0, 0, 2, 2, 0) + ((81) * mn(p, 2, 0, 2, 4, 0, 0, 2) + (162) * mn(p, 2, 0, 2, 4, 0, 0, 0)))) + (((-972) * mn(p, 2, 0, 2, 3, 0, 1, 1) + ((486) * mn(p, 2, 0, 2, 2, 0, 2, 2) + (972) * mn(p, 2, 0, 2, 2, 0, 2, 0))) + (((-162) * mn(p, 2, 0, 2, 1, 0, 3, 3) + (-324) * mn(p, 2, 0, 2, 1, 0, 3, 1)) + ((243) * mn(p, 2, 0, 2, 0, 0, 4, 2) + (-486) * mn(p, 2, 0, 2, 0, 0, 4, 0)))))) + (((((18) * mn(p, 1, 2, 1, 2, 2, 0, 1) + ((-72) * mn(p, 1, 2, 1, 1, 2, 1, 0) + (18) * mn(p, 1, 2, 1, 0, 2, 2, 1))) + ((-162) * mn(p, 1, 0, 3, 4, 0, 0, 1) + ((162) * mn(p, 1, 0, 3, 3, 0, 1, 2) + (648) * mn(p, 1, 0, 3, 3, 0, 1, 0)))) + (((-162) * mn(p, 1, 0, 3, 2, 0, 2, 3) + ((-324) * mn(p, 1, 0, 3, 2, 0, 2, 1) + (810) * mn(p, 1, 0, 3, 1, 0, 3, 2))) + (((-1944) * mn(p, 1, 0, 3, 1, 0, 3, 0) + (-162) * mn(p, 1, 0, 3, 0, 0, 4, 3)) + ((486) * mn(p, 1, 0, 3, 0, 0, 4, 1) + (1) * mn(p, 0, 4, 0, 0, 4, 0, 0))))) + ((((-18) * mn(p, 0, 2, 2, 2, 2, 0, 0) + ((18) * mn(p, 0, 2, 2, 1, 2, 1, 1) + (-18) * mn(p, 0, 2, 2, 0, 2, 2, 2))) + ((54) * mn(p, 0, 2, 2, 0, 2, 2, 0) + ((81) * mn(p, 0, 0, 4, 4, 0, 0, 0) + (-162) * mn(p, 0, 0, 4, 3, 0, 1, 1)))) + (((243) * mn(p, 0, 0, 4, 2, 0, 2, 2) + ((-486) * mn(p, 0, 0, 4, 2, 0, 2, 0) + (-162) * mn(p, 0, 0, 4, 1, 0, 3, 3))) + (((486) * mn(p, 0, 0, 4, 1, 0, 3, 1) + (81) * mn(p, 0, 0, 4, 0, 0, 4, 4)) + ((-486) * mn(p, 0, 0, 4, 0, 0, 4, 2) + (729) * mn(p, 0, 0, 4, 0, 0, 4, 0))))))));
    acb_prod2(p);
    let n1 = n0 * zz;
    assert(n1 == (((((((((243) * mn(p, 6, 0, 0, 5, 1, 0, 0) + (-486) * mn(p, 6, 0, 0, 4, 1, 1, 1)) + ((243) * mn(p, 6, 0, 0, 3, 1, 2, 2) + (486) * mn(p, 6, 0, 0, 3, 1, 2, 0))) + (((-486) * mn(p, 6, 0, 0, 2, 1, 3, 1) + (243) * mn(p, 6, 0, 0, 1, 1, 4, 0)) + ((243) * mn(p, 5, 1, 0, 6, 0, 0, 0) + ((-486) * mn(p, 5, 1, 0, 5, 0, 1, 1) + (243) * mn(p, 5, 1, 0, 4, 0, 2, 2))))) + ((((243) * mn(p, 5, 1, 0, 4, 0, 2, 0) + (-243) * mn(p, 5, 1, 0, 2, 0, 4, 2)) + ((-243) * mn(p, 5, 1, 0, 2, 0, 4, 0) + (486) * mn(p, 5, 1, 0, 1, 0, 5, 1))) + (((-243) * mn(p, 5, 1, 0, 0, 0, 6, 0) + (-486) * mn(p, 5, 0, 1, 5, 1, 0, 1)) + ((486) * mn(p, 5, 0, 1, 4, 1, 1, 2) + ((1458) * mn(p, 5, 0, 1, 4, 1, 1, 0) + (-1944) * mn(p, 5, 0, 1, 3, 1, 2, 1)))))) + (((((972) * mn(p, 5, 0, 1, 2, 1, 3, 0) + (486) * mn(p, 5, 0, 1, 1, 1, 4, 1)) + ((-486) * mn(p, 5, 0, 1, 0, 1, 5, 0) + (81) * mn(p, 4, 2, 0, 4, 1, 1, 0))) + (((-54) * mn(p, 4, 2, 0, 3, 3, 0, 0) + (-162) * mn(p, 4, 2, 0, 3, 1, 2, 1)) + ((54) * mn(p, 4, 2, 0, 2, 3, 1, 1) + ((81) * mn(p, 4, 2, 0, 2, 1, 3, 2) + (162) * mn(p, 4, 2, 0, 2, 1, 3, 0))))) + ((((-54) * mn(p, 4, 2, 0, 1, 3, 2, 0) + (-162) * mn(p, 4, 2, 0, 1, 1, 4, 1)) + ((81) * mn(p, 4, 2, 0, 0, 1, 5, 0) + (-486) * mn(p, 4, 1, 1, 6, 0, 0, 1))) + (((486) * mn(p, 4, 1, 1, 5, 0, 1, 2) + (1458) * mn(p, 4, 1, 1, 5, 0, 1, 0)) + ((81) * mn(p, 4, 1, 1, 4, 2, 0, 0) + ((-1215) * mn(p, 4, 1, 1, 4, 0, 2, 1) + (-162) * mn(p, 4, 1, 1, 3, 2, 1, 1))))))) + ((((((-972) * mn(p, 4, 1, 1, 3, 0, 3, 2) + (-972) * mn(p, 4, 1, 1, 3, 0, 3, 0)) + ((81) * mn(p, 4, 1, 1, 2, 2, 2, 2) + (162) * mn(p, 4, 1, 1, 2, 2, 2, 0))) + (((243) * mn(p, 4, 1, 1, 2, 0, 4, 3) + (3888) * mn(p, 4, 1, 1, 2, 0, 4, 1)) + ((-162) * mn(p, 4, 1, 1, 1, 2, 3, 1) + ((-972) * mn(p, 4, 1, 1, 1, 0, 5, 2) + (-2430) * mn(p, 4, 1, 1, 1, 0, 5, 0))))) + ((((81) * mn(p, 4, 1, 1, 0, 2, 4, 0) + (729) * mn(p, 4, 1, 1, 0, 0, 6, 1)) + ((243) * mn(p, 4, 0, 2, 5, 1, 0, 2) + (243) * mn(p, 4, 0, 2, 5, 1, 0, 0))) + (((-1215) * mn(p, 4, 0, 2, 4, 1, 1, 1) + (-243) * mn(p, 4, 0, 2, 3, 1, 2, 2)) + ((-1458) * mn(p, 4, 0, 2, 3, 1, 2, 0) + ((-243) * mn(p, 4, 0, 2, 2, 1, 3, 3) + (5832) * mn(p, 4, 0, 2, 2, 1, 3, 1)))))) + (((((-729) * mn(p, 4, 0, 2, 1, 1, 4, 2) + (-5589) * mn(p, 4, 0, 2, 1, 1, 4, 0)) + ((1215) * mn(p, 4, 0, 2, 0, 1, 5, 1) + (-54) * mn(p, 3, 3, 0, 4, 2, 0, 0))) + (((54) * mn(p, 3, 3, 0, 3, 2, 1, 1) + (-54) * mn(p, 3, 3, 0, 1, 2, 3, 1)) + ((54) * mn(p, 3, 3, 0, 0, 2, 4, 0) + ((-162) * mn(p, 3, 2, 1, 4, 1, 1, 1) + (54) * mn(p, 3, 2, 1, 3, 3, 0, 1))))) + ((((162) * mn(p, 3, 2, 1, 3, 1, 2, 2) + (648) * mn(p, 3, 2, 1, 3, 1, 2, 0)) + ((-108) * mn(p, 3, 2, 1, 2, 3, 1, 0) + ((-972) * mn(p, 3, 2, 1, 2, 1, 3, 1) + (-54) * mn(p, 3, 2, 1, 1, 3, 2, 1)))) + (((162) * mn(p, 3, 2, 1, 1, 1, 4, 2) + (648) * mn(p, 3, 2, 1, 1, 1, 4, 0)) + ((108) * mn(p, 3, 2, 1, 0, 3, 3, 0) + ((-162) * mn(p, 3, 2, 1, 0, 1, 5, 1) + (243) * mn(p, 3, 1, 2, 6, 0, 0, 2)))))))) + (((((((486) * mn(p, 3, 1, 2, 6, 0, 0, 0) + (-1944) * mn(p, 3, 1, 2, 5, 0, 1, 1)) + ((-162) * mn(p, 3, 1, 2, 4, 2, 0, 1) + (-243) * mn(p, 3, 1, 2, 4, 0, 2, 2))) + (((-1458) * mn(p, 3, 1, 2, 4, 0, 2, 0) + (162) * mn(p, 3, 1, 2, 3, 2, 1, 2)) + ((648) * mn(p, 3, 1, 2, 3, 2, 1, 0) + ((9720) * mn(p, 3, 1, 2, 3, 0, 3, 1) + (-972) * mn(p, 3, 1, 2, 2, 2, 2, 1))))) + ((((-4617) * mn(p, 3, 1, 2, 2, 0, 4, 2) + (-8262) * mn(p, 3, 1, 2, 2, 0, 4, 0)) + ((162) * mn(p, 3, 1, 2, 1, 2, 3, 2) + (648) * mn(p, 3, 1, 2, 1, 2, 3, 0))) + (((972) * mn(p, 3, 1, 2, 1, 0, 5, 3) + (3888) * mn(p, 3, 1, 2, 1, 0, 5, 1)) + ((-162) * mn(p, 3, 1, 2, 0, 2, 4, 1) + ((-1215) * mn(p, 3, 1, 2, 0, 0, 6, 2) + (1458) * mn(p, 3, 1, 2, 0, 0, 6, 0)))))) + (((((-972) * mn(p, 3, 0, 3, 4, 1, 1, 2) + (-972) * mn(p, 3, 0, 3, 4, 1, 1, 0)) + ((9720) * mn(p, 3, 0, 3, 3, 1, 2, 1) + (-3888) * mn(p, 3, 0, 3, 2, 1, 3, 2))) + (((-13608) * mn(p, 3, 0, 3, 2, 1, 3, 0) + (972) * mn(p, 3, 0, 3, 1, 1, 4, 3)) + ((5832) * mn(p, 3, 0, 3, 1, 1, 4, 1) + ((-1944) * mn(p, 3, 0, 3, 0, 1, 5, 2) + (2916) * mn(p, 3, 0, 3, 0, 1, 5, 0))))) + ((((-18) * mn(p, 2, 4, 0, 2, 3, 1, 0) + (3) * mn(p, 2, 4, 0, 1, 5, 0, 0)) + ((18) * mn(p, 2, 4, 0, 1, 3, 2, 1) + ((-18) * mn(p, 2, 4, 0, 0, 3, 3, 0) + (54) * mn(p, 2, 3, 1, 4, 2, 0, 1)))) + (((-108) * mn(p, 2, 3, 1, 3, 2, 1, 0) + (-18) * mn(p, 2, 3, 1, 2, 4, 0, 0)) + ((-162) * mn(p, 2, 3, 1, 2, 2, 2, 1) + ((18) * mn(p, 2, 3, 1, 1, 4, 1, 1) + (54) * mn(p, 2, 3, 1, 1, 2, 3, 2))))))) + ((((((324) * mn(p, 2, 3, 1, 1, 2, 3, 0) + (-18) * mn(p, 2, 3, 1, 0, 4, 2, 0)) + ((-108) * mn(p, 2, 3, 1, 0, 2, 4, 1) + (81) * mn(p, 2, 2, 2, 4, 1, 1, 2))) + (((162) * mn(p, 2, 2, 2, 4, 1, 1, 0) + (-972) * mn(p, 2, 2, 2, 3, 1, 2, 1)) + ((-162) * mn(p, 2, 2, 2, 2, 3, 1, 1) + ((486) * mn(p, 2, 2, 2, 2, 1, 3, 2) + (972) * mn(p, 2, 2, 2, 2, 1, 3, 0))))) + ((((648) * mn(p, 2, 2, 2, 1, 3, 2, 0) + (-162) * mn(p, 2, 2, 2, 1, 1, 4, 3)) + ((-324) * mn(p, 2, 2, 2, 1, 1, 4, 1) + (-162) * mn(p, 2, 2, 2, 0, 3, 3, 1))) + (((243) * mn(p, 2, 2, 2, 0, 1, 5, 2) + (-486) * mn(p, 2, 2, 2, 0, 1, 5, 0)) + ((-486) * mn(p, 2, 1, 3, 6, 0, 0, 1) + ((972) * mn(p, 2, 1, 3, 5, 0, 1, 0) + (81) * mn(p, 2, 1, 3, 4, 2, 0, 2)))))) + (((((162) * mn(p, 2, 1, 3, 4, 2, 0, 0) + (-243) * mn(p, 2, 1, 3, 4, 0, 2, 3)) + ((5832) * mn(p, 2, 1, 3, 4, 0, 2, 1) + (-972) * mn(p, 2, 1, 3, 3, 2, 1, 1))) + (((-3888) * mn(p, 2, 1, 3, 3, 0, 3, 2) + (-13608) * mn(p, 2, 1, 3, 3, 0, 3, 0)) + ((486) * mn(p, 2, 1, 3, 2, 2, 2, 2) + ((972) * mn(p, 2, 1, 3, 2, 2, 2, 0) + (2430) * mn(p, 2, 1, 3, 2, 0, 4, 3))))) + ((((7290) * mn(p, 2, 1, 3, 2, 0, 4, 1) + (-162) * mn(p, 2, 1, 3, 1, 2, 3, 3)) + ((-324) * mn(p, 2, 1, 3, 1, 2, 3, 1) + ((-486) * mn(p, 2, 1, 3, 1, 0, 5, 4) + (-4860) * mn(p, 2, 1, 3, 1, 0, 5, 2)))) + (((8748) * mn(p, 2, 1, 3, 1, 0, 5, 0) + (243) * mn(p, 2, 1, 3, 0, 2, 4, 2)) + ((-486) * mn(p, 2, 1, 3, 0, 2, 4, 0) + ((1215) * mn(p, 2, 1, 3, 0, 0, 6, 3) + (-2916) * mn(p, 2, 1, 3, 0, 0, 6, 1))))))))) + ((((((((-243) * mn(p, 2, 0, 4, 5, 1, 0, 2) + (-243) * mn(p, 2, 0, 4, 5, 1, 0, 0)) + ((243) * mn(p, 2, 0, 4, 4, 1, 1, 3) + (3888) * mn(p, 2, 0, 4, 4, 1, 1, 1))) + (((-4617) * mn(p, 2, 0, 4, 3, 1, 2, 2) + (-8262) * mn(p, 2, 0, 4, 3, 1, 2, 0)) + ((2430) * mn(p, 2, 0, 4, 2, 1, 3, 3) + ((7290) * mn(p, 2, 0, 4, 2, 1, 3, 1) + (-243) * mn(p, 2, 0, 4, 1, 1, 4, 4))))) + ((((-8019) * mn(p, 2, 0, 4, 1, 1, 4, 2) + (15309) * mn(p, 2, 0, 4, 1, 1, 4, 0)) + ((1701) * mn(p, 2, 0, 4, 0, 1, 5, 3) + (-4374) * mn(p, 2, 0, 4, 0, 1, 5, 1))) + (((3) * mn(p, 1, 5, 0, 2, 4, 0, 0) + (-3) * mn(p, 1, 5, 0, 0, 4, 2, 0)) + ((18) * mn(p, 1, 4, 1, 2, 3, 1, 1) + ((-72) * mn(p, 1, 4, 1, 1, 3, 2, 0) + (-6) * mn(p, 1, 4, 1, 0, 5, 1, 0)))))) + (((((18) * mn(p, 1, 4, 1, 0, 3, 3, 1) + (-54) * mn(p, 1, 3, 2, 4, 2, 0, 0)) + ((-54) * mn(p, 1, 3, 2, 3, 2, 1, 1) + (18) * mn(p, 1, 3, 2, 2, 4, 0, 1))) + (((648) * mn(p, 1, 3, 2, 2, 2, 2, 0) + (-72) * mn(p, 1, 3, 2, 1, 4, 1, 0)) + ((-378) * mn(p, 1, 3, 2, 1, 2, 3, 1) + ((18) * mn(p, 1, 3, 2, 0, 4, 2, 1) + (108) * mn(p, 1, 3, 2, 0, 2, 4, 2))))) + ((((-162) * mn(p, 1, 3, 2, 0, 2, 4, 0) + (-162) * mn(p, 1, 2, 3, 4, 1, 1, 1)) + ((-54) * mn(p, 1, 2, 3, 3, 3, 0, 1) + (162) * mn(p, 1, 2, 3, 3, 1, 2, 2))) + (((648) * mn(p, 1, 2, 3, 3, 1, 2, 0) + (54) * mn(p, 1, 2, 3, 2, 3, 1, 2)) + ((324) * mn(p, 1, 2, 3, 2, 3, 1, 0) + ((-162) * mn(p, 1, 2, 3, 2, 1, 3, 3) + (-324) * mn(p, 1, 2, 3, 2, 1, 3, 1))))))) + ((((((-378) * mn(p, 1, 2, 3, 1, 3, 2, 1) + (810) * mn(p, 1, 2, 3, 1, 1, 4, 2)) + ((-1944) * mn(p, 1, 2, 3, 1, 1, 4, 0) + (162) * mn(p, 1, 2, 3, 0, 3, 3, 2))) + (((-324) * mn(p, 1, 2, 3, 0, 3, 3, 0) + (-162) * mn(p, 1, 2, 3, 0, 1, 5, 3)) + ((486) * mn(p, 1, 2, 3, 0, 1, 5, 1) + ((243) * mn(p, 1, 1, 4, 6, 0, 0, 0) + (486) * mn(p, 1, 1, 4, 5, 0, 1, 1))))) + ((((-162) * mn(p, 1, 1, 4, 4, 2, 0, 1) + (-729) * mn(p, 1, 1, 4, 4, 0, 2, 2)) + ((-5589) * mn(p, 1, 1, 4, 4, 0, 2, 0) + (162) * mn(p, 1, 1, 4, 3, 2, 1, 2))) + (((648) * mn(p, 1, 1, 4, 3, 2, 1, 0) + (972) * mn(p, 1, 1, 4, 3, 0, 3, 3)) + ((5832) * mn(p, 1, 1, 4, 3, 0, 3, 1) + ((-162) * mn(p, 1, 1, 4, 2, 2, 2, 3) + (-324) * mn(p, 1, 1, 4, 2, 2, 2, 1)))))) + (((((-243) * mn(p, 1, 1, 4, 2, 0, 4, 4) + (-8019) * mn(p, 1, 1, 4, 2, 0, 4, 2)) + ((15309) * mn(p, 1, 1, 4, 2, 0, 4, 0) + (810) * mn(p, 1, 1, 4, 1, 2, 3, 2))) + (((-1944) * mn(p, 1, 1, 4, 1, 2, 3, 0) + (3888) * mn(p, 1, 1, 4, 1, 0, 5, 3)) + ((-10206) * mn(p, 1, 1, 4, 1, 0, 5, 1) + ((-162) * mn(p, 1, 1, 4, 0, 2, 4, 3) + (486) * mn(p, 1, 1, 4, 0, 2, 4, 1))))) + ((((-729) * mn(p, 1, 1, 4, 0, 0, 6, 4) + (2916) * mn(p, 1, 1, 4, 0, 0, 6, 2)) + ((-2187) * mn(p, 1, 1, 4, 0, 0, 6, 0) + ((486) * mn(p, 1, 0, 5, 5, 1, 0, 1) + (-972) * mn(p, 1, 0, 5, 4, 1, 1, 2)))) + (((-2430) * mn(p, 1, 0, 5, 4, 1, 1, 0) + (972) * mn(p, 1, 0, 5, 3, 1, 2, 3)) + ((3888) * mn(p, 1, 0, 5, 3, 1, 2, 1) + ((-486) * mn(p, 1, 0, 5, 2, 1, 3, 4) + (-4860) * mn(p, 1, 0, 5, 2, 1, 3, 2)))))))) + (((((((8748) * mn(p, 1, 0, 5, 2, 1, 3, 0) + (3888) * mn(p, 1, 0, 5, 1, 1, 4, 3)) + ((-10206) * mn(p, 1, 0, 5, 1, 1, 4, 1) + (-972) * mn(p, 1, 0, 5, 0, 1, 5, 4))) + (((4374) * mn(p, 1, 0, 5, 0, 1, 5, 2) + (-4374) * mn(p, 1, 0, 5, 0, 1, 5, 0)) + ((1) * mn(p, 0, 6, 0, 0, 5, 1, 0) + ((-6) * mn(p, 0, 5, 1, 1, 4, 1, 0) + (1) * mn(p, 0, 5, 1, 0, 6, 0, 0))))) + ((((3) * mn(p, 0, 5, 1, 0, 4, 2, 1) + (-18) * mn(p, 0, 4, 2, 2, 3, 1, 0)) + ((-3) * mn(p, 0, 4, 2, 1, 5, 0, 0) + (18) * mn(p, 0, 4, 2, 1, 3, 2, 1))) + (((3) * mn(p, 0, 4, 2, 0, 5, 1, 1) + (-18) * mn(p, 0, 4, 2, 0, 3, 3, 2)) + ((54) * mn(p, 0, 4, 2, 0, 3, 3, 0) + ((108) * mn(p, 0, 3, 3, 3, 2, 1, 0) + (-18) * mn(p, 0, 3, 3, 2, 4, 0, 0)))))) + (((((-162) * mn(p, 0, 3, 3, 2, 2, 2, 1) + (18) * mn(p, 0, 3, 3, 1, 4, 1, 1)) + ((162) * mn(p, 0, 3, 3, 1, 2, 3, 2) + (-324) * mn(p, 0, 3, 3, 1, 2, 3, 0))) + (((-18) * mn(p, 0, 3, 3, 0, 4, 2, 2) + (54) * mn(p, 0, 3, 3, 0, 4, 2, 0)) + ((-54) * mn(p, 0, 3, 3, 0, 2, 4, 3) + ((162) * mn(p, 0, 3, 3, 0, 2, 4, 1) + (81) * mn(p, 0, 2, 4, 4, 1, 1, 0))))) + ((((54) * mn(p, 0, 2, 4, 3, 3, 0, 0) + (-162) * mn(p, 0, 2, 4, 3, 1, 2, 1)) + ((-108) * mn(p, 0, 2, 4, 2, 3, 1, 1) + ((243) * mn(p, 0, 2, 4, 2, 1, 3, 2) + (-486) * mn(p, 0, 2, 4, 2, 1, 3, 0)))) + (((108) * mn(p, 0, 2, 4, 1, 3, 2, 2) + (-162) * mn(p, 0, 2, 4, 1, 3, 2, 0)) + ((-162) * mn(p, 0, 2, 4, 1, 1, 4, 3) + ((486) * mn(p, 0, 2, 4, 1, 1, 4, 1) + (-54) * mn(p, 0, 2, 4, 0, 3, 3, 3))))))) + ((((((162) * mn(p, 0, 2, 4, 0, 3, 3, 1) + (81) * mn(p, 0, 2, 4, 0, 1, 5, 4)) + ((-486) * mn(p, 0, 2, 4, 0, 1, 5, 2) + (729) * mn(p, 0, 2, 4, 0, 1, 5, 0))) + (((-486) * mn(p, 0, 1, 5, 5, 0, 1, 0) + (81) * mn(p, 0, 1, 5, 4, 2, 0, 0)) + ((1215) * mn(p, 0, 1, 5, 4, 0, 2, 1) + ((-162) * mn(p, 0, 1, 5, 3, 2, 1, 1) + (-1944) * mn(p, 0, 1, 5, 3, 0, 3, 2))))) + ((((2916) * mn(p, 0, 1, 5, 3, 0, 3, 0) + (243) * mn(p, 0, 1, 5, 2, 2, 2, 2)) + ((-486) * mn(p, 0, 1, 5, 2, 2, 2, 0) + (1701) * mn(p, 0, 1, 5, 2, 0, 4, 3))) + (((-4374) * mn(p, 0, 1, 5, 2, 0, 4, 1) + (-162) * mn(p, 0, 1, 5, 1, 2, 3, 3)) + ((486) * mn(p, 0, 1, 5, 1, 2, 3, 1) + ((-972) * mn(p, 0, 1, 5, 1, 0, 5, 4) + (4374) * mn(p, 0, 1, 5, 1, 0, 5, 2)))))) + (((((-4374) * mn(p, 0, 1, 5, 1, 0, 5, 0) + (81) * mn(p, 0, 1, 5, 0, 2, 4, 4)) + ((-486) * mn(p, 0, 1, 5, 0, 2, 4, 2) + (729) * mn(p, 0, 1, 5, 0, 2, 4, 0))) + (((243) * mn(p, 0, 1, 5, 0, 0, 6, 5) + (-1458) * mn(p, 0, 1, 5, 0, 0, 6, 3)) + ((2187) * mn(p, 0, 1, 5, 0, 0, 6, 1) + ((-243) * mn(p, 0, 0, 6, 5, 1, 0, 0) + (729) * mn(p, 0, 0, 6, 4, 1, 1, 1))))) + ((((-1215) * mn(p, 0, 0, 6, 3, 1, 2, 2) + (1458) * mn(p, 0, 0, 6, 3, 1, 2, 0)) + ((1215) * mn(p, 0, 0, 6, 2, 1, 3, 3) + ((-2916) * mn(p, 0, 0, 6, 2, 1, 3, 1) + (-729) * mn(p, 0, 0, 6, 1, 1, 4, 4)))) + (((2916) * mn(p, 0, 0, 6, 1, 1, 4, 2) + (-2187) * mn(p, 0, 0, 6, 1, 1, 4, 0)) + ((243) * mn(p, 0, 0, 6, 0, 1, 5, 5) + ((-1458) * mn(p, 0, 0, 6, 0, 1, 5, 3) + (2187) * mn(p, 0, 0, 6, 0, 1, 5, 1)))))))))));
    acb_prod5(p);
    let n2 = xx * xx;
    assert(n2 == (((((((9) * mn(p, 4, 0, 0, 0, 2, 2, 0) + (36) * mn(p, 3, 1, 0, 1, 1, 2, 0)) + ((6) * mn(p, 3, 1, 0, 0, 3, 1, 0) + (-18) * mn(p, 3, 1, 0, 0, 1, 3, 1))) + (((36) * mn(p, 3, 0, 1, 1, 2, 1, 0) + (-36) * mn(p, 3, 0, 1, 0, 2, 2, 1)) + ((36) * mn(p, 2, 2, 0, 2, 0, 2, 0) + (18) * mn(p, 2, 2, 0, 1, 2, 1, 0)))) + ((((-36) * mn(p, 2, 2, 0, 1, 0, 3, 1) + (1) * mn(p, 2, 2, 0, 0, 4, 0, 0)) + ((-6) * mn(p, 2, 2, 0, 0, 2, 2, 1) + (9) * mn(p, 2, 2, 0, 0, 0, 4, 2))) + (((90) * mn(p, 2, 1, 1, 2, 1, 1, 0) + (12) * mn(p, 2, 1, 1, 1, 3, 0, 0)) + ((-144) * mn(p, 2, 1, 1, 1, 1, 2, 1) + (-12) * mn(p, 2, 1, 1, 0, 3, 1, 1))))) + (((((36) * mn(p, 2, 1, 1, 0, 1, 3, 2) + (54) * mn(p, 2, 1, 1, 0, 1, 3, 0)) + ((36) * mn(p, 2, 0, 2, 2, 2, 0, 0) + (-90) * mn(p, 2, 0, 2, 1, 2, 1, 1))) + (((36) * mn(p, 2, 0, 2, 0, 2, 2, 2) + (54) * mn(p, 2, 0, 2, 0, 2, 2, 0)) + ((12) * mn(p, 1, 3, 0, 2, 1, 1, 0) + (2) * mn(p, 1, 3, 0, 1, 3, 0, 0)))) + ((((-6) * mn(p, 1, 3, 0, 1, 1, 2, 1) + (36) * mn(p, 1, 2, 1, 3, 0, 1, 0)) + ((18) * mn(p, 1, 2, 1, 2, 2, 0, 0) + (-90) * mn(p, 1, 2, 1, 2, 0, 2, 1))) + (((-24) * mn(p, 1, 2, 1, 1, 2, 1, 1) + (36) * mn(p, 1, 2, 1, 1, 0, 3, 2)) + ((108) * mn(p, 1, 2, 1, 1, 0, 3, 0) + (18) * mn(p, 1, 2, 1, 0, 2, 2, 0)))))) + ((((((-54) * mn(p, 1, 2, 1, 0, 0, 4, 1) + (36) * mn(p, 1, 1, 2, 3, 1, 0, 0)) + ((-144) * mn(p, 1, 1, 2, 2, 1, 1, 1) + (-6) * mn(p, 1, 1, 2, 1, 3, 0, 1))) + (((90) * mn(p, 1, 1, 2, 1, 1, 2, 2) + (216) * mn(p, 1, 1, 2, 1, 1, 2, 0)) + ((18) * mn(p, 1, 1, 2, 0, 3, 1, 0) + (-162) * mn(p, 1, 1, 2, 0, 1, 3, 1)))) + ((((-36) * mn(p, 1, 0, 3, 2, 2, 0, 1) + (36) * mn(p, 1, 0, 3, 1, 2, 1, 2)) + ((108) * mn(p, 1, 0, 3, 1, 2, 1, 0) + (-108) * mn(p, 1, 0, 3, 0, 2, 2, 1))) + (((1) * mn(p, 0, 4, 0, 2, 2, 0, 0) + (6) * mn(p, 0, 3, 1, 3, 1, 0, 0)) + ((-12) * mn(p, 0, 3, 1, 2, 1, 1, 1) + (18) * mn(p, 0, 3, 1, 1, 1, 2, 0))))) + (((((9) * mn(p, 0, 2, 2, 4, 0, 0, 0) + (-36) * mn(p, 0, 2, 2, 3, 0, 1, 1)) + ((-6) * mn(p, 0, 2, 2, 2, 2, 0, 1) + (36) * mn(p, 0, 2, 2, 2, 0, 2, 2))) + (((54) * mn(p, 0, 2, 2, 2, 0, 2, 0) + (18) * mn(p, 0, 2, 2, 1, 2, 1, 0)) + ((-108) * mn(p, 0, 2, 2, 1, 0, 3, 1) + (81) * mn(p, 0, 2, 2, 0, 0, 4, 0)))) + ((((-18) * mn(p, 0, 1, 3, 3, 1, 0, 1) + (36) * mn(p, 0, 1, 3, 2, 1, 1, 2)) + ((54) * mn(p, 0, 1, 3, 2, 1, 1, 0) + (-162) * mn(p, 0, 1, 3, 1, 1, 2, 1))) + (((162) * mn(p, 0, 1, 3, 0, 1, 3, 0) + (9) * mn(p, 0, 0, 4, 2, 2, 0, 2)) + ((-54) * mn(p, 0, 0, 4, 1, 2, 1, 1) + (81) * mn(p, 0, 0, 4, 0, 2, 2, 0))))))));
    acb_prod7(p);
    let n3 = n2 * xx;
    assert(n3 == ((((((((27) * mn(p, 6, 0, 0, 0, 3, 3, 0) + ((162) * mn(p, 5, 1, 0, 1, 2, 3, 0) + (27) * mn(p, 5, 1, 0, 0, 4, 2, 0))) + (((-81) * mn(p, 5, 1, 0, 0, 2, 4, 1) + (162) * mn(p, 5, 0, 1, 1, 3, 2, 0)) + ((-162) * mn(p, 5, 0, 1, 0, 3, 3, 1) + (324) * mn(p, 4, 2, 0, 2, 1, 3, 0)))) + (((135) * mn(p, 4, 2, 0, 1, 3, 2, 0) + ((-324) * mn(p, 4, 2, 0, 1, 1, 4, 1) + (9) * mn(p, 4, 2, 0, 0, 5, 1, 0))) + (((-54) * mn(p, 4, 2, 0, 0, 3, 3, 1) + (81) * mn(p, 4, 2, 0, 0, 1, 5, 2)) + ((729) * mn(p, 4, 1, 1, 2, 2, 2, 0) + (108) * mn(p, 4, 1, 1, 1, 4, 1, 0))))) + ((((-1134) * mn(p, 4, 1, 1, 1, 2, 3, 1) + ((-108) * mn(p, 4, 1, 1, 0, 4, 2, 1) + (324) * mn(p, 4, 1, 1, 0, 2, 4, 2))) + (((243) * mn(p, 4, 1, 1, 0, 2, 4, 0) + (324) * mn(p, 4, 0, 2, 2, 3, 1, 0)) + ((-729) * mn(p, 4, 0, 2, 1, 3, 2, 1) + (324) * mn(p, 4, 0, 2, 0, 3, 3, 2)))) + (((243) * mn(p, 4, 0, 2, 0, 3, 3, 0) + ((216) * mn(p, 3, 3, 0, 3, 0, 3, 0) + (216) * mn(p, 3, 3, 0, 2, 2, 2, 0))) + (((-324) * mn(p, 3, 3, 0, 2, 0, 4, 1) + (36) * mn(p, 3, 3, 0, 1, 4, 1, 0)) + ((-162) * mn(p, 3, 3, 0, 1, 2, 3, 1) + (162) * mn(p, 3, 3, 0, 1, 0, 5, 2)))))) + (((((1) * mn(p, 3, 3, 0, 0, 6, 0, 0) + ((-9) * mn(p, 3, 3, 0, 0, 4, 2, 1) + (27) * mn(p, 3, 3, 0, 0, 2, 4, 2))) + (((-27) * mn(p, 3, 3, 0, 0, 0, 6, 3) + (972) * mn(p, 3, 2, 1, 3, 1, 2, 0)) + ((378) * mn(p, 3, 2, 1, 2, 3, 1, 0) + (-2106) * mn(p, 3, 2, 1, 2, 1, 3, 1)))) + (((18) * mn(p, 3, 2, 1, 1, 5, 0, 0) + ((-540) * mn(p, 3, 2, 1, 1, 3, 2, 1) + (1134) * mn(p, 3, 2, 1, 1, 1, 4, 2))) + (((972) * mn(p, 3, 2, 1, 1, 1, 4, 0) + (-18) * mn(p, 3, 2, 1, 0, 5, 1, 1)) + ((108) * mn(p, 3, 2, 1, 0, 3, 3, 2) + (162) * mn(p, 3, 2, 1, 0, 3, 3, 0))))) + ((((-162) * mn(p, 3, 2, 1, 0, 1, 5, 3) + ((-486) * mn(p, 3, 2, 1, 0, 1, 5, 1) + (972) * mn(p, 3, 1, 2, 3, 2, 1, 0))) + (((108) * mn(p, 3, 1, 2, 2, 4, 0, 0) + (-2916) * mn(p, 3, 1, 2, 2, 2, 2, 1)) + ((-270) * mn(p, 3, 1, 2, 1, 4, 1, 1) + (2106) * mn(p, 3, 1, 2, 1, 2, 3, 2)))) + (((1944) * mn(p, 3, 1, 2, 1, 2, 3, 0) + ((108) * mn(p, 3, 1, 2, 0, 4, 2, 2) + (162) * mn(p, 3, 1, 2, 0, 4, 2, 0))) + (((-324) * mn(p, 3, 1, 2, 0, 2, 4, 3) + (-1458) * mn(p, 3, 1, 2, 0, 2, 4, 1)) + ((216) * mn(p, 3, 0, 3, 3, 3, 0, 0) + (-972) * mn(p, 3, 0, 3, 2, 3, 1, 1))))))) + ((((((972) * mn(p, 3, 0, 3, 1, 3, 2, 2) + ((972) * mn(p, 3, 0, 3, 1, 3, 2, 0) + (-216) * mn(p, 3, 0, 3, 0, 3, 3, 3))) + (((-972) * mn(p, 3, 0, 3, 0, 3, 3, 1) + (108) * mn(p, 2, 4, 0, 3, 1, 2, 0)) + ((45) * mn(p, 2, 4, 0, 2, 3, 1, 0) + (-108) * mn(p, 2, 4, 0, 2, 1, 3, 1)))) + (((3) * mn(p, 2, 4, 0, 1, 5, 0, 0) + ((-18) * mn(p, 2, 4, 0, 1, 3, 2, 1) + (27) * mn(p, 2, 4, 0, 1, 1, 4, 2))) + (((324) * mn(p, 2, 3, 1, 4, 0, 2, 0) + (378) * mn(p, 2, 3, 1, 3, 2, 1, 0)) + ((-972) * mn(p, 2, 3, 1, 3, 0, 3, 1) + (45) * mn(p, 2, 3, 1, 2, 4, 0, 0))))) + ((((-702) * mn(p, 2, 3, 1, 2, 2, 2, 1) + ((729) * mn(p, 2, 3, 1, 2, 0, 4, 2) + (972) * mn(p, 2, 3, 1, 2, 0, 4, 0))) + (((-54) * mn(p, 2, 3, 1, 1, 4, 1, 1) + (216) * mn(p, 2, 3, 1, 1, 2, 3, 2)) + ((486) * mn(p, 2, 3, 1, 1, 2, 3, 0) + (-162) * mn(p, 2, 3, 1, 1, 0, 5, 3)))) + (((-972) * mn(p, 2, 3, 1, 1, 0, 5, 1) + ((27) * mn(p, 2, 3, 1, 0, 4, 2, 0) + (-162) * mn(p, 2, 3, 1, 0, 2, 4, 1))) + (((243) * mn(p, 2, 3, 1, 0, 0, 6, 2) + (729) * mn(p, 2, 2, 2, 4, 1, 1, 0)) + ((216) * mn(p, 2, 2, 2, 3, 3, 0, 0) + (-2916) * mn(p, 2, 2, 2, 3, 1, 2, 1)))))) + (((((-702) * mn(p, 2, 2, 2, 2, 3, 1, 1) + ((2916) * mn(p, 2, 2, 2, 2, 1, 3, 2) + (3402) * mn(p, 2, 2, 2, 2, 1, 3, 0))) + (((-9) * mn(p, 2, 2, 2, 1, 5, 0, 1) + (378) * mn(p, 2, 2, 2, 1, 3, 2, 2)) + ((810) * mn(p, 2, 2, 2, 1, 3, 2, 0) + (-729) * mn(p, 2, 2, 2, 1, 1, 4, 3)))) + (((-4860) * mn(p, 2, 2, 2, 1, 1, 4, 1) + ((27) * mn(p, 2, 2, 2, 0, 5, 1, 0) + (-486) * mn(p, 2, 2, 2, 0, 3, 3, 1))) + (((1215) * mn(p, 2, 2, 2, 0, 1, 5, 2) + (729) * mn(p, 2, 2, 2, 0, 1, 5, 0)) + ((324) * mn(p, 2, 1, 3, 4, 2, 0, 0) + (-2106) * mn(p, 2, 1, 3, 3, 2, 1, 1))))) + ((((-108) * mn(p, 2, 1, 3, 2, 4, 0, 1) + ((2916) * mn(p, 2, 1, 3, 2, 2, 2, 2) + (3402) * mn(p, 2, 1, 3, 2, 2, 2, 0))) + (((108) * mn(p, 2, 1, 3, 1, 4, 1, 2) + (324) * mn(p, 2, 1, 3, 1, 4, 1, 0)) + ((-972) * mn(p, 2, 1, 3, 1, 2, 3, 3) + (-6318) * mn(p, 2, 1, 3, 1, 2, 3, 1)))) + (((-324) * mn(p, 2, 1, 3, 0, 4, 2, 1) + ((1944) * mn(p, 2, 1, 3, 0, 2, 4, 2) + (1458) * mn(p, 2, 1, 3, 0, 2, 4, 0))) + (((-324) * mn(p, 2, 0, 4, 3, 3, 0, 1) + (729) * mn(p, 2, 0, 4, 2, 3, 1, 2)) + ((972) * mn(p, 2, 0, 4, 2, 3, 1, 0) + (-324) * mn(p, 2, 0, 4, 1, 3, 2, 3)))))))) + (((((((-2430) * mn(p, 2, 0, 4, 1, 3, 2, 1) + ((972) * mn(p, 2, 0, 4, 0, 3, 3, 2) + (729) * mn(p, 2, 0, 4, 0, 3, 3, 0))) + (((18) * mn(p, 1, 5, 0, 3, 2, 1, 0) + (3) * mn(p, 1, 5, 0, 2, 4, 0, 0)) + ((-9) * mn(p, 1, 5, 0, 2, 2, 2, 1) + (108) * mn(p, 1, 4, 1, 4, 1, 1, 0)))) + (((36) * mn(p, 1, 4, 1, 3, 3, 0, 0) + ((-270) * mn(p, 1, 4, 1, 3, 1, 2, 1) + (-54) * mn(p, 1, 4, 1, 2, 3, 1, 1))) + (((108) * mn(p, 1, 4, 1, 2, 1, 3, 2) + (324) * mn(p, 1, 4, 1, 2, 1, 3, 0)) + ((54) * mn(p, 1, 4, 1, 1, 3, 2, 0) + (-162) * mn(p, 1, 4, 1, 1, 1, 4, 1))))) + ((((162) * mn(p, 1, 3, 2, 5, 0, 1, 0) + ((135) * mn(p, 1, 3, 2, 4, 2, 0, 0) + (-729) * mn(p, 1, 3, 2, 4, 0, 2, 1))) + (((-540) * mn(p, 1, 3, 2, 3, 2, 1, 1) + (972) * mn(p, 1, 3, 2, 3, 0, 3, 2)) + ((972) * mn(p, 1, 3, 2, 3, 0, 3, 0) + (-18) * mn(p, 1, 3, 2, 2, 4, 0, 1)))) + (((378) * mn(p, 1, 3, 2, 2, 2, 2, 2) + ((810) * mn(p, 1, 3, 2, 2, 2, 2, 0) + (-324) * mn(p, 1, 3, 2, 2, 0, 4, 3))) + (((-2430) * mn(p, 1, 3, 2, 2, 0, 4, 1) + (54) * mn(p, 1, 3, 2, 1, 4, 1, 0)) + ((-810) * mn(p, 1, 3, 2, 1, 2, 3, 1) + (972) * mn(p, 1, 3, 2, 1, 0, 5, 2)))))) + (((((1458) * mn(p, 1, 3, 2, 1, 0, 5, 0) + ((243) * mn(p, 1, 3, 2, 0, 2, 4, 0) + (-729) * mn(p, 1, 3, 2, 0, 0, 6, 1))) + (((162) * mn(p, 1, 2, 3, 5, 1, 0, 0) + (-1134) * mn(p, 1, 2, 3, 4, 1, 1, 1)) + ((-162) * mn(p, 1, 2, 3, 3, 3, 0, 1) + (2106) * mn(p, 1, 2, 3, 3, 1, 2, 2)))) + (((1944) * mn(p, 1, 2, 3, 3, 1, 2, 0) + ((216) * mn(p, 1, 2, 3, 2, 3, 1, 2) + (486) * mn(p, 1, 2, 3, 2, 3, 1, 0))) + (((-972) * mn(p, 1, 2, 3, 2, 1, 3, 3) + (-6318) * mn(p, 1, 2, 3, 2, 1, 3, 1)) + ((-810) * mn(p, 1, 2, 3, 1, 3, 2, 1) + (3402) * mn(p, 1, 2, 3, 1, 1, 4, 2))))) + ((((4374) * mn(p, 1, 2, 3, 1, 1, 4, 0) + ((486) * mn(p, 1, 2, 3, 0, 3, 3, 0) + (-2916) * mn(p, 1, 2, 3, 0, 1, 5, 1))) + (((-324) * mn(p, 1, 1, 4, 4, 2, 0, 1) + (1134) * mn(p, 1, 1, 4, 3, 2, 1, 2)) + ((972) * mn(p, 1, 1, 4, 3, 2, 1, 0) + (27) * mn(p, 1, 1, 4, 2, 4, 0, 2)))) + (((-729) * mn(p, 1, 1, 4, 2, 2, 2, 3) + ((-4860) * mn(p, 1, 1, 4, 2, 2, 2, 1) + (-162) * mn(p, 1, 1, 4, 1, 4, 1, 1))) + (((3402) * mn(p, 1, 1, 4, 1, 2, 3, 2) + (4374) * mn(p, 1, 1, 4, 1, 2, 3, 0)) + ((243) * mn(p, 1, 1, 4, 0, 4, 2, 0) + (-3645) * mn(p, 1, 1, 4, 0, 2, 4, 1))))))) + ((((((162) * mn(p, 1, 0, 5, 3, 3, 0, 2) + ((-162) * mn(p, 1, 0, 5, 2, 3, 1, 3) + (-972) * mn(p, 1, 0, 5, 2, 3, 1, 1))) + (((972) * mn(p, 1, 0, 5, 1, 3, 2, 2) + (1458) * mn(p, 1, 0, 5, 1, 3, 2, 0)) + ((-1458) * mn(p, 1, 0, 5, 0, 3, 3, 1) + (1) * mn(p, 0, 6, 0, 3, 3, 0, 0)))) + (((9) * mn(p, 0, 5, 1, 4, 2, 0, 0) + ((-18) * mn(p, 0, 5, 1, 3, 2, 1, 1) + (27) * mn(p, 0, 5, 1, 2, 2, 2, 0))) + (((27) * mn(p, 0, 4, 2, 5, 1, 0, 0) + (-108) * mn(p, 0, 4, 2, 4, 1, 1, 1)) + ((-9) * mn(p, 0, 4, 2, 3, 3, 0, 1) + (108) * mn(p, 0, 4, 2, 3, 1, 2, 2))))) + ((((162) * mn(p, 0, 4, 2, 3, 1, 2, 0) + ((27) * mn(p, 0, 4, 2, 2, 3, 1, 0) + (-324) * mn(p, 0, 4, 2, 2, 1, 3, 1))) + (((243) * mn(p, 0, 4, 2, 1, 1, 4, 0) + (27) * mn(p, 0, 3, 3, 6, 0, 0, 0)) + ((-162) * mn(p, 0, 3, 3, 5, 0, 1, 1) + (-54) * mn(p, 0, 3, 3, 4, 2, 0, 1)))) + (((324) * mn(p, 0, 3, 3, 4, 0, 2, 2) + ((243) * mn(p, 0, 3, 3, 4, 0, 2, 0) + (108) * mn(p, 0, 3, 3, 3, 2, 1, 2))) + (((162) * mn(p, 0, 3, 3, 3, 2, 1, 0) + (-216) * mn(p, 0, 3, 3, 3, 0, 3, 3)) + ((-972) * mn(p, 0, 3, 3, 3, 0, 3, 1) + (-486) * mn(p, 0, 3, 3, 2, 2, 2, 1)))))) + (((((972) * mn(p, 0, 3, 3, 2, 0, 4, 2) + ((729) * mn(p, 0, 3, 3, 2, 0, 4, 0) + (486) * mn(p, 0, 3, 3, 1, 2, 3, 0))) + (((-1458) * mn(p, 0, 3, 3, 1, 0, 5, 1) + (729) * mn(p, 0, 3, 3, 0, 0, 6, 0)) + ((-81) * mn(p, 0, 2, 4, 5, 1, 0, 1) + (324) * mn(p, 0, 2, 4, 4, 1, 1, 2)))) + (((243) * mn(p, 0, 2, 4, 4, 1, 1, 0) + ((27) * mn(p, 0, 2, 4, 3, 3, 0, 2) + (-324) * mn(p, 0, 2, 4, 3, 1, 2, 3))) + (((-1458) * mn(p, 0, 2, 4, 3, 1, 2, 1) + (-162) * mn(p, 0, 2, 4, 2, 3, 1, 1)) + ((1944) * mn(p, 0, 2, 4, 2, 1, 3, 2) + (1458) * mn(p, 0, 2, 4, 2, 1, 3, 0))))) + ((((243) * mn(p, 0, 2, 4, 1, 3, 2, 0) + ((-3645) * mn(p, 0, 2, 4, 1, 1, 4, 1) + (2187) * mn(p, 0, 2, 4, 0, 1, 5, 0))) + (((81) * mn(p, 0, 1, 5, 4, 2, 0, 2) + (-162) * mn(p, 0, 1, 5, 3, 2, 1, 3)) + ((-486) * mn(p, 0, 1, 5, 3, 2, 1, 1) + (1215) * mn(p, 0, 1, 5, 2, 2, 2, 2)))) + (((729) * mn(p, 0, 1, 5, 2, 2, 2, 0) + ((-2916) * mn(p, 0, 1, 5, 1, 2, 3, 1) + (2187) * mn(p, 0, 1, 5, 0, 2, 4, 0))) + (((-27) * mn(p, 0, 0, 6, 3, 3, 0, 3) + (243) * mn(p, 0, 0, 6, 2, 3, 1, 2)) + ((-729) * mn(p, 0, 0, 6, 1, 3, 2, 1) + (729) * mn(p, 0, 0, 6, 0, 3, 3, 0))))))))));
    acb_prod10(p);
    let n4 = xx * zz;
    assert(n4 == (((((((9) * mn(p, 4, 0, 0, 1, 2, 1, 0) + (27) * mn(p, 3, 1, 0, 2, 1, 1, 0)) + ((3) * mn(p, 3, 1, 0, 1, 3, 0, 0) + (-9) * mn(p, 3, 1, 0, 1, 1, 2, 1))) + (((-9) * mn(p, 3, 1, 0, 0, 1, 3, 0) + (18) * mn(p, 3, 0, 1, 2, 2, 0, 0)) + ((-18) * mn(p, 3, 0, 1, 1, 2, 1, 1) + (-18) * mn(p, 3, 0, 1, 0, 2, 2, 0)))) + ((((18) * mn(p, 2, 2, 0, 3, 0, 1, 0) + (6) * mn(p, 2, 2, 0, 2, 2, 0, 0)) + ((-9) * mn(p, 2, 2, 0, 2, 0, 2, 1) + (-18) * mn(p, 2, 2, 0, 1, 0, 3, 0))) + (((9) * mn(p, 2, 2, 0, 0, 0, 4, 1) + (27) * mn(p, 2, 1, 1, 3, 1, 0, 0)) + ((-36) * mn(p, 2, 1, 1, 2, 1, 1, 1) + (-45) * mn(p, 2, 1, 1, 1, 1, 2, 0))))) + (((((-3) * mn(p, 2, 1, 1, 0, 3, 1, 0) + (45) * mn(p, 2, 1, 1, 0, 1, 3, 1)) + ((-9) * mn(p, 2, 0, 2, 2, 2, 0, 1) + (-18) * mn(p, 2, 0, 2, 1, 2, 1, 0))) + (((45) * mn(p, 2, 0, 2, 0, 2, 2, 1) + (3) * mn(p, 1, 3, 0, 3, 1, 0, 0)) + ((3) * mn(p, 1, 3, 0, 1, 1, 2, 0) + (1) * mn(p, 1, 3, 0, 0, 3, 1, 0)))) + ((((-3) * mn(p, 1, 3, 0, 0, 1, 3, 1) + (9) * mn(p, 1, 2, 1, 4, 0, 0, 0)) + ((-18) * mn(p, 1, 2, 1, 3, 0, 1, 1) + (-18) * mn(p, 1, 2, 1, 2, 0, 2, 0))) + (((54) * mn(p, 1, 2, 1, 1, 0, 3, 1) + (1) * mn(p, 1, 2, 1, 0, 4, 0, 0)) + ((-6) * mn(p, 1, 2, 1, 0, 2, 2, 1) + ((-9) * mn(p, 1, 2, 1, 0, 0, 4, 2) + (-27) * mn(p, 1, 2, 1, 0, 0, 4, 0))))))) + ((((((-9) * mn(p, 1, 1, 2, 3, 1, 0, 1) + (-45) * mn(p, 1, 1, 2, 2, 1, 1, 0)) + ((3) * mn(p, 1, 1, 2, 1, 3, 0, 0) + (126) * mn(p, 1, 1, 2, 1, 1, 2, 1))) + (((-3) * mn(p, 1, 1, 2, 0, 3, 1, 1) + (-27) * mn(p, 1, 1, 2, 0, 1, 3, 2)) + ((-81) * mn(p, 1, 1, 2, 0, 1, 3, 0) + (-18) * mn(p, 1, 0, 3, 2, 2, 0, 0)))) + ((((54) * mn(p, 1, 0, 3, 1, 2, 1, 1) + (-18) * mn(p, 1, 0, 3, 0, 2, 2, 2)) + ((-54) * mn(p, 1, 0, 3, 0, 2, 2, 0) + (1) * mn(p, 0, 4, 0, 1, 2, 1, 0))) + (((-3) * mn(p, 0, 3, 1, 2, 1, 1, 0) + (1) * mn(p, 0, 3, 1, 1, 3, 0, 0)) + ((-3) * mn(p, 0, 3, 1, 1, 1, 2, 1) + ((9) * mn(p, 0, 3, 1, 0, 1, 3, 0) + (-18) * mn(p, 0, 2, 2, 3, 0, 1, 0)))))) + (((((45) * mn(p, 0, 2, 2, 2, 0, 2, 1) + (-6) * mn(p, 0, 2, 2, 1, 2, 1, 1)) + ((-18) * mn(p, 0, 2, 2, 1, 0, 3, 2) + (-54) * mn(p, 0, 2, 2, 1, 0, 3, 0))) + (((18) * mn(p, 0, 2, 2, 0, 2, 2, 0) + (27) * mn(p, 0, 2, 2, 0, 0, 4, 1)) + ((-9) * mn(p, 0, 1, 3, 3, 1, 0, 0) + (45) * mn(p, 0, 1, 3, 2, 1, 1, 1)))) + ((((-3) * mn(p, 0, 1, 3, 1, 3, 0, 1) + (-27) * mn(p, 0, 1, 3, 1, 1, 2, 2)) + ((-81) * mn(p, 0, 1, 3, 1, 1, 2, 0) + (9) * mn(p, 0, 1, 3, 0, 3, 1, 0))) + (((54) * mn(p, 0, 1, 3, 0, 1, 3, 1) + (9) * mn(p, 0, 0, 4, 2, 2, 0, 1)) + ((-9) * mn(p, 0, 0, 4, 1, 2, 1, 2) + ((-27) * mn(p, 0, 0, 4, 1, 2, 1, 0) + (27) * mn(p, 0, 0, 4, 0, 2, 2, 1)))))))));
    acb_prod12(p);
    let n5 = n4 * zz;
    assert(n5 == ((((((((27) * mn(p, 6, 0, 0, 2, 3, 1, 0) + ((108) * mn(p, 5, 1, 0, 3, 2, 1, 0) + (9) * mn(p, 5, 1, 0, 2, 4, 0, 0))) + (((-27) * mn(p, 5, 1, 0, 2, 2, 2, 1) + (-54) * mn(p, 5, 1, 0, 1, 2, 3, 0)) + ((54) * mn(p, 5, 0, 1, 3, 3, 0, 0) + (-54) * mn(p, 5, 0, 1, 2, 3, 1, 1)))) + (((-108) * mn(p, 5, 0, 1, 1, 3, 2, 0) + ((135) * mn(p, 4, 2, 0, 4, 1, 1, 0) + (27) * mn(p, 4, 2, 0, 3, 3, 0, 0))) + (((-54) * mn(p, 4, 2, 0, 3, 1, 2, 1) + (-162) * mn(p, 4, 2, 0, 2, 1, 3, 0)) + ((54) * mn(p, 4, 2, 0, 1, 1, 4, 1) + (27) * mn(p, 4, 2, 0, 0, 1, 5, 0))))) + ((((135) * mn(p, 4, 1, 1, 4, 2, 0, 0) + ((-162) * mn(p, 4, 1, 1, 3, 2, 1, 1) + (-459) * mn(p, 4, 1, 1, 2, 2, 2, 0))) + (((-18) * mn(p, 4, 1, 1, 1, 4, 1, 0) + (270) * mn(p, 4, 1, 1, 1, 2, 3, 1)) + ((108) * mn(p, 4, 1, 1, 0, 2, 4, 0) + (-27) * mn(p, 4, 0, 2, 3, 3, 0, 1)))) + (((-189) * mn(p, 4, 0, 2, 2, 3, 1, 0) + ((270) * mn(p, 4, 0, 2, 1, 3, 2, 1) + (108) * mn(p, 4, 0, 2, 0, 3, 3, 0))) + (((54) * mn(p, 3, 3, 0, 5, 0, 1, 0) + (27) * mn(p, 3, 3, 0, 4, 2, 0, 0)) + ((-27) * mn(p, 3, 3, 0, 4, 0, 2, 1) + (-108) * mn(p, 3, 3, 0, 3, 0, 3, 0)))))) + (((((18) * mn(p, 3, 3, 0, 2, 2, 2, 0) + ((54) * mn(p, 3, 3, 0, 2, 0, 4, 1) + (6) * mn(p, 3, 3, 0, 1, 4, 1, 0))) + (((-18) * mn(p, 3, 3, 0, 1, 2, 3, 1) + (54) * mn(p, 3, 3, 0, 1, 0, 5, 0)) + ((-9) * mn(p, 3, 3, 0, 0, 2, 4, 0) + (-27) * mn(p, 3, 3, 0, 0, 0, 6, 1)))) + (((108) * mn(p, 3, 2, 1, 5, 1, 0, 0) + ((-162) * mn(p, 3, 2, 1, 4, 1, 1, 1) + (-540) * mn(p, 3, 2, 1, 3, 1, 2, 0))) + (((-18) * mn(p, 3, 2, 1, 2, 3, 1, 0) + (594) * mn(p, 3, 2, 1, 2, 1, 3, 1)) + ((6) * mn(p, 3, 2, 1, 1, 5, 0, 0) + (-36) * mn(p, 3, 2, 1, 1, 3, 2, 1))))) + ((((-54) * mn(p, 3, 2, 1, 1, 1, 4, 2) + ((216) * mn(p, 3, 2, 1, 1, 1, 4, 0) + (-18) * mn(p, 3, 2, 1, 0, 3, 3, 0))) + (((-216) * mn(p, 3, 2, 1, 0, 1, 5, 1) + (-54) * mn(p, 3, 1, 2, 4, 2, 0, 1)) + ((-540) * mn(p, 3, 1, 2, 3, 2, 1, 0) + (18) * mn(p, 3, 1, 2, 2, 4, 0, 0)))) + (((1026) * mn(p, 3, 1, 2, 2, 2, 2, 1) + ((-18) * mn(p, 3, 1, 2, 1, 4, 1, 1) + (-162) * mn(p, 3, 1, 2, 1, 2, 3, 2))) + (((216) * mn(p, 3, 1, 2, 1, 2, 3, 0) + (-486) * mn(p, 3, 1, 2, 0, 2, 4, 1)) + ((-108) * mn(p, 3, 0, 3, 3, 3, 0, 0) + (324) * mn(p, 3, 0, 3, 2, 3, 1, 1))))))) + ((((((-108) * mn(p, 3, 0, 3, 1, 3, 2, 2) + ((-324) * mn(p, 3, 0, 3, 0, 3, 3, 1) + (9) * mn(p, 2, 4, 0, 5, 1, 0, 0))) + (((18) * mn(p, 2, 4, 0, 3, 1, 2, 0) + (12) * mn(p, 2, 4, 0, 2, 3, 1, 0)) + ((-18) * mn(p, 2, 4, 0, 2, 1, 3, 1) + (-27) * mn(p, 2, 4, 0, 1, 1, 4, 0)))) + (((-3) * mn(p, 2, 4, 0, 0, 3, 3, 0) + ((18) * mn(p, 2, 4, 0, 0, 1, 5, 1) + (27) * mn(p, 2, 3, 1, 6, 0, 0, 0))) + (((-54) * mn(p, 2, 3, 1, 5, 0, 1, 1) + (-189) * mn(p, 2, 3, 1, 4, 0, 2, 0)) + ((-18) * mn(p, 2, 3, 1, 3, 2, 1, 0) + (324) * mn(p, 2, 3, 1, 3, 0, 3, 1))))) + ((((12) * mn(p, 2, 3, 1, 2, 4, 0, 0) + ((-54) * mn(p, 2, 3, 1, 2, 2, 2, 1) + (-54) * mn(p, 2, 3, 1, 2, 0, 4, 2))) + (((81) * mn(p, 2, 3, 1, 2, 0, 4, 0) + (-54) * mn(p, 2, 3, 1, 1, 2, 3, 0)) + ((-270) * mn(p, 2, 3, 1, 1, 0, 5, 1) + (-12) * mn(p, 2, 3, 1, 0, 4, 2, 0)))) + (((90) * mn(p, 2, 3, 1, 0, 2, 4, 1) + ((54) * mn(p, 2, 3, 1, 0, 0, 6, 2) + (81) * mn(p, 2, 3, 1, 0, 0, 6, 0))) + (((-27) * mn(p, 2, 2, 2, 5, 1, 0, 1) + (-459) * mn(p, 2, 2, 2, 4, 1, 1, 0)) + ((18) * mn(p, 2, 2, 2, 3, 3, 0, 0) + (1026) * mn(p, 2, 2, 2, 3, 1, 2, 1)))))) + (((((-54) * mn(p, 2, 2, 2, 2, 3, 1, 1) + ((-270) * mn(p, 2, 2, 2, 2, 1, 3, 2) + (162) * mn(p, 2, 2, 2, 2, 1, 3, 0))) + (((-1107) * mn(p, 2, 2, 2, 1, 1, 4, 1) + (-9) * mn(p, 2, 2, 2, 0, 5, 1, 0)) + ((126) * mn(p, 2, 2, 2, 0, 3, 3, 1) + (297) * mn(p, 2, 2, 2, 0, 1, 5, 2)))) + (((405) * mn(p, 2, 2, 2, 0, 1, 5, 0) + ((-162) * mn(p, 2, 1, 3, 4, 2, 0, 0) + (594) * mn(p, 2, 1, 3, 3, 2, 1, 1))) + (((-18) * mn(p, 2, 1, 3, 2, 4, 0, 1) + (-270) * mn(p, 2, 1, 3, 2, 2, 2, 2)) + ((162) * mn(p, 2, 1, 3, 2, 2, 2, 0) + (-1350) * mn(p, 2, 1, 3, 1, 2, 3, 1))))) + ((((54) * mn(p, 2, 1, 3, 0, 4, 2, 1) + ((486) * mn(p, 2, 1, 3, 0, 2, 4, 2) + (648) * mn(p, 2, 1, 3, 0, 2, 4, 0))) + (((54) * mn(p, 2, 0, 4, 3, 3, 0, 1) + (-54) * mn(p, 2, 0, 4, 2, 3, 1, 2)) + ((81) * mn(p, 2, 0, 4, 2, 3, 1, 0) + (-432) * mn(p, 2, 0, 4, 1, 3, 2, 1)))) + (((243) * mn(p, 2, 0, 4, 0, 3, 3, 2) + ((324) * mn(p, 2, 0, 4, 0, 3, 3, 0) + (6) * mn(p, 1, 5, 0, 3, 2, 1, 0))) + (((1) * mn(p, 1, 5, 0, 0, 4, 2, 0) + (-3) * mn(p, 1, 5, 0, 0, 2, 4, 1)) + ((-18) * mn(p, 1, 4, 1, 4, 1, 1, 0) + (6) * mn(p, 1, 4, 1, 3, 3, 0, 0)))))))) + (((((((-18) * mn(p, 1, 4, 1, 3, 1, 2, 1) + ((-12) * mn(p, 1, 4, 1, 1, 3, 2, 0) + (90) * mn(p, 1, 4, 1, 1, 1, 4, 1))) + (((2) * mn(p, 1, 4, 1, 0, 5, 1, 0) + (-6) * mn(p, 1, 4, 1, 0, 3, 3, 1)) + ((-18) * mn(p, 1, 4, 1, 0, 1, 5, 2) + (-54) * mn(p, 1, 4, 1, 0, 1, 5, 0)))) + (((-108) * mn(p, 1, 3, 2, 5, 0, 1, 0) + ((270) * mn(p, 1, 3, 2, 4, 0, 2, 1) + (-36) * mn(p, 1, 3, 2, 3, 2, 1, 1))) + (((-108) * mn(p, 1, 3, 2, 3, 0, 3, 2) + (-432) * mn(p, 1, 3, 2, 2, 0, 4, 1)) + ((-12) * mn(p, 1, 3, 2, 1, 4, 1, 0) + (270) * mn(p, 1, 3, 2, 1, 2, 3, 1))))) + ((((270) * mn(p, 1, 3, 2, 1, 0, 5, 2) + ((324) * mn(p, 1, 3, 2, 1, 0, 5, 0) + (1) * mn(p, 1, 3, 2, 0, 6, 0, 0))) + (((-3) * mn(p, 1, 3, 2, 0, 4, 2, 1) + (-63) * mn(p, 1, 3, 2, 0, 2, 4, 2)) + ((-216) * mn(p, 1, 3, 2, 0, 2, 4, 0) + (-27) * mn(p, 1, 3, 2, 0, 0, 6, 3)))) + (((-162) * mn(p, 1, 3, 2, 0, 0, 6, 1) + ((-54) * mn(p, 1, 2, 3, 5, 1, 0, 0) + (270) * mn(p, 1, 2, 3, 4, 1, 1, 1))) + (((-18) * mn(p, 1, 2, 3, 3, 3, 0, 1) + (-162) * mn(p, 1, 2, 3, 3, 1, 2, 2)) + ((216) * mn(p, 1, 2, 3, 3, 1, 2, 0) + (-54) * mn(p, 1, 2, 3, 2, 3, 1, 0)))))) + (((((-1350) * mn(p, 1, 2, 3, 2, 1, 3, 1) + ((270) * mn(p, 1, 2, 3, 1, 3, 2, 1) + (918) * mn(p, 1, 2, 3, 1, 1, 4, 2))) + (((1134) * mn(p, 1, 2, 3, 1, 1, 4, 0) + (-72) * mn(p, 1, 2, 3, 0, 3, 3, 2)) + ((-270) * mn(p, 1, 2, 3, 0, 3, 3, 0) + (-108) * mn(p, 1, 2, 3, 0, 1, 5, 3)))) + (((-648) * mn(p, 1, 2, 3, 0, 1, 5, 1) + ((54) * mn(p, 1, 1, 4, 4, 2, 0, 1) + (-54) * mn(p, 1, 1, 4, 3, 2, 1, 2))) + (((216) * mn(p, 1, 1, 4, 3, 2, 1, 0) + (-27) * mn(p, 1, 1, 4, 2, 4, 0, 0)) + ((-1107) * mn(p, 1, 1, 4, 2, 2, 2, 1) + (90) * mn(p, 1, 1, 4, 1, 4, 1, 1))))) + ((((918) * mn(p, 1, 1, 4, 1, 2, 3, 2) + ((1134) * mn(p, 1, 1, 4, 1, 2, 3, 0) + (-27) * mn(p, 1, 1, 4, 0, 4, 2, 2))) + (((-108) * mn(p, 1, 1, 4, 0, 4, 2, 0) + (-135) * mn(p, 1, 1, 4, 0, 2, 4, 3)) + ((-810) * mn(p, 1, 1, 4, 0, 2, 4, 1) + (54) * mn(p, 1, 0, 5, 3, 3, 0, 0)))) + (((-270) * mn(p, 1, 0, 5, 2, 3, 1, 1) + ((270) * mn(p, 1, 0, 5, 1, 3, 2, 2) + (324) * mn(p, 1, 0, 5, 1, 3, 2, 0))) + (((-54) * mn(p, 1, 0, 5, 0, 3, 3, 3) + (-324) * mn(p, 1, 0, 5, 0, 3, 3, 1)) + ((1) * mn(p, 0, 6, 0, 1, 3, 2, 0) + (-9) * mn(p, 0, 5, 1, 2, 2, 2, 0))))))) + ((((((2) * mn(p, 0, 5, 1, 1, 4, 1, 0) + ((9) * mn(p, 0, 5, 1, 0, 2, 4, 0) + (-12) * mn(p, 0, 4, 2, 2, 3, 1, 0))) + (((54) * mn(p, 0, 4, 2, 2, 1, 3, 1) + (1) * mn(p, 0, 4, 2, 1, 5, 0, 0)) + ((-3) * mn(p, 0, 4, 2, 1, 3, 2, 1) + (-27) * mn(p, 0, 4, 2, 1, 1, 4, 2)))) + (((-108) * mn(p, 0, 4, 2, 1, 1, 4, 0) + ((27) * mn(p, 0, 4, 2, 0, 3, 3, 0) + (54) * mn(p, 0, 4, 2, 0, 1, 5, 1))) + (((108) * mn(p, 0, 3, 3, 4, 0, 2, 0) + (-18) * mn(p, 0, 3, 3, 3, 2, 1, 0)) + ((-324) * mn(p, 0, 3, 3, 3, 0, 3, 1) + (-3) * mn(p, 0, 3, 3, 2, 4, 0, 0))))) + ((((126) * mn(p, 0, 3, 3, 2, 2, 2, 1) + ((243) * mn(p, 0, 3, 3, 2, 0, 4, 2) + (324) * mn(p, 0, 3, 3, 2, 0, 4, 0))) + (((-6) * mn(p, 0, 3, 3, 1, 4, 1, 1) + (-72) * mn(p, 0, 3, 3, 1, 2, 3, 2)) + ((-270) * mn(p, 0, 3, 3, 1, 2, 3, 0) + (-54) * mn(p, 0, 3, 3, 1, 0, 5, 3)))) + (((-324) * mn(p, 0, 3, 3, 1, 0, 5, 1) + ((27) * mn(p, 0, 3, 3, 0, 4, 2, 0) + (162) * mn(p, 0, 3, 3, 0, 2, 4, 1))) + (((81) * mn(p, 0, 3, 3, 0, 0, 6, 2) + (108) * mn(p, 0, 2, 4, 4, 1, 1, 0)) + ((-9) * mn(p, 0, 2, 4, 3, 3, 0, 0) + (-486) * mn(p, 0, 2, 4, 3, 1, 2, 1)))))) + (((((90) * mn(p, 0, 2, 4, 2, 3, 1, 1) + ((486) * mn(p, 0, 2, 4, 2, 1, 3, 2) + (648) * mn(p, 0, 2, 4, 2, 1, 3, 0))) + (((-3) * mn(p, 0, 2, 4, 1, 5, 0, 1) + (-63) * mn(p, 0, 2, 4, 1, 3, 2, 2)) + ((-216) * mn(p, 0, 2, 4, 1, 3, 2, 0) + (-135) * mn(p, 0, 2, 4, 1, 1, 4, 3)))) + (((-810) * mn(p, 0, 2, 4, 1, 1, 4, 1) + ((9) * mn(p, 0, 2, 4, 0, 5, 1, 0) + (162) * mn(p, 0, 2, 4, 0, 3, 3, 1))) + (((243) * mn(p, 0, 2, 4, 0, 1, 5, 2) + (27) * mn(p, 0, 1, 5, 4, 2, 0, 0)) + ((-216) * mn(p, 0, 1, 5, 3, 2, 1, 1) + (18) * mn(p, 0, 1, 5, 2, 4, 0, 1))))) + ((((297) * mn(p, 0, 1, 5, 2, 2, 2, 2) + ((405) * mn(p, 0, 1, 5, 2, 2, 2, 0) + (-18) * mn(p, 0, 1, 5, 1, 4, 1, 2))) + (((-54) * mn(p, 0, 1, 5, 1, 4, 1, 0) + (-108) * mn(p, 0, 1, 5, 1, 2, 3, 3)) + ((-648) * mn(p, 0, 1, 5, 1, 2, 3, 1) + (54) * mn(p, 0, 1, 5, 0, 4, 2, 1)))) + (((243) * mn(p, 0, 1, 5, 0, 2, 4, 2) + ((-27) * mn(p, 0, 0, 6, 3, 3, 0, 1) + (54) * mn(p, 0, 0, 6, 2, 3, 1, 2))) + (((81) * mn(p, 0, 0, 6, 2, 3, 1, 0) + (-27) * mn(p, 0, 0, 6, 1, 3, 2, 3)) + ((-162) * mn(p, 0, 0, 6, 1, 3, 2, 1) + (81) * mn(p, 0, 0, 6, 0, 3, 3, 2))))))))));
    let n6 = 3 * n5;
    assert(n6 == ((((((((81) * mn(p, 6, 0, 0, 2, 3, 1, 0) + ((324) * mn(p, 5, 1, 0, 3, 2, 1, 0) + (27) * mn(p, 5, 1, 0, 2, 4, 0, 0))) + (((-81) * mn(p, 5, 1, 0, 2, 2, 2, 1) + (-162) * mn(p, 5, 1, 0, 1, 2, 3, 0)) + ((162) * mn(p, 5, 0, 1, 3, 3, 0, 0) + (-162) * mn(p, 5, 0, 1, 2, 3, 1, 1)))) + (((-324) * mn(p, 5, 0, 1, 1, 3, 2, 0) + ((405) * mn(p, 4, 2, 0, 4, 1, 1, 0) + (81) * mn(p, 4, 2, 0, 3, 3, 0, 0))) + (((-162) * mn(p, 4, 2, 0, 3, 1, 2, 1) + (-486) * mn(p, 4, 2, 0, 2, 1, 3, 0)) + ((162) * mn(p, 4, 2, 0, 1, 1, 4, 1) + (81) * mn(p, 4, 2, 0, 0, 1, 5, 0))))) + ((((405) * mn(p, 4, 1, 1, 4, 2, 0, 0) + ((-486) * mn(p, 4, 1, 1, 3, 2, 1, 1) + (-1377) * mn(p, 4, 1, 1, 2, 2, 2, 0))) + (((-54) * mn(p, 4, 1, 1, 1, 4, 1, 0) + (810) * mn(p, 4, 1, 1, 1, 2, 3, 1)) + ((324) * mn(p, 4, 1, 1, 0, 2, 4, 0) + (-81) * mn(p, 4, 0, 2, 3, 3, 0, 1)))) + (((-567) * mn(p, 4, 0, 2, 2, 3, 1, 0) + ((810) * mn(p, 4, 0, 2, 1, 3, 2, 1) + (324) * mn(p, 4, 0, 2, 0, 3, 3, 0))) + (((162) * mn(p, 3, 3, 0, 5, 0, 1, 0) + (81) * mn(p, 3, 3, 0, 4, 2, 0, 0)) + ((-81) * mn(p, 3, 3, 0, 4, 0, 2, 1) + (-324) * mn(p, 3, 3, 0, 3, 0, 3, 0)))))) + (((((54) * mn(p, 3, 3, 0, 2, 2, 2, 0) + ((162) * mn(p, 3, 3, 0, 2, 0, 4, 1) + (18) * mn(p, 3, 3, 0, 1, 4, 1, 0))) + (((-54) * mn(p, 3, 3, 0, 1, 2, 3, 1) + (162) * mn(p, 3, 3, 0, 1, 0, 5, 0)) + ((-27) * mn(p, 3, 3, 0, 0, 2, 4, 0) + (-81) * mn(p, 3, 3, 0, 0, 0, 6, 1)))) + (((324) * mn(p, 3, 2, 1, 5, 1, 0, 0) + ((-486) * mn(p, 3, 2, 1, 4, 1, 1, 1) + (-1620) * mn(p, 3, 2, 1, 3, 1, 2, 0))) + (((-54) * mn(p, 3, 2, 1, 2, 3, 1, 0) + (1782) * mn(p, 3, 2, 1, 2, 1, 3, 1)) + ((18) * mn(p, 3, 2, 1, 1, 5, 0, 0) + (-108) * mn(p, 3, 2, 1, 1, 3, 2, 1))))) + ((((-162) * mn(p, 3, 2, 1, 1, 1, 4, 2) + ((648) * mn(p, 3, 2, 1, 1, 1, 4, 0) + (-54) * mn(p, 3, 2, 1, 0, 3, 3, 0))) + (((-648) * mn(p, 3, 2, 1, 0, 1, 5, 1) + (-162) * mn(p, 3, 1, 2, 4, 2, 0, 1)) + ((-1620) * mn(p, 3, 1, 2, 3, 2, 1, 0) + (54) * mn(p, 3, 1, 2, 2, 4, 0, 0)))) + (((3078) * mn(p, 3, 1, 2, 2, 2, 2, 1) + ((-54) * mn(p, 3, 1, 2, 1, 4, 1, 1) + (-486) * mn(p, 3, 1, 2, 1, 2, 3, 2))) + (((648) * mn(p, 3, 1, 2, 1, 2, 3, 0) + (-1458) * mn(p, 3, 1, 2, 0, 2, 4, 1)) + ((-324) * mn(p, 3, 0, 3, 3, 3, 0, 0) + (972) * mn(p, 3, 0, 3, 2, 3, 1, 1))))))) + ((((((-324) * mn(p, 3, 0, 3, 1, 3, 2, 2) + ((-972) * mn(p, 3, 0, 3, 0, 3, 3, 1) + (27) * mn(p, 2, 4, 0, 5, 1, 0, 0))) + (((54) * mn(p, 2, 4, 0, 3, 1, 2, 0) + (36) * mn(p, 2, 4, 0, 2, 3, 1, 0)) + ((-54) * mn(p, 2, 4, 0, 2, 1, 3, 1) + (-81) * mn(p, 2, 4, 0, 1, 1, 4, 0)))) + (((-9) * mn(p, 2, 4, 0, 0, 3, 3, 0) + ((54) * mn(p, 2, 4, 0, 0, 1, 5, 1) + (81) * mn(p, 2, 3, 1, 6, 0, 0, 0))) + (((-162) * mn(p, 2, 3, 1, 5, 0, 1, 1) + (-567) * mn(p, 2, 3, 1, 4, 0, 2, 0)) + ((-54) * mn(p, 2, 3, 1, 3, 2, 1, 0) + (972) * mn(p, 2, 3, 1, 3, 0, 3, 1))))) + ((((36) * mn(p, 2, 3, 1, 2, 4, 0, 0) + ((-162) * mn(p, 2, 3, 1, 2, 2, 2, 1) + (-162) * mn(p, 2, 3, 1, 2, 0, 4, 2))) + (((243) * mn(p, 2, 3, 1, 2, 0, 4, 0) + (-162) * mn(p, 2, 3, 1, 1, 2, 3, 0)) + ((-810) * mn(p, 2, 3, 1, 1, 0, 5, 1) + (-36) * mn(p, 2, 3, 1, 0, 4, 2, 0)))) + (((270) * mn(p, 2, 3, 1, 0, 2, 4, 1) + ((162) * mn(p, 2, 3, 1, 0, 0, 6, 2) + (243) * mn(p, 2, 3, 1, 0, 0, 6, 0))) + (((-81) * mn(p, 2, 2, 2, 5, 1, 0, 1) + (-1377) * mn(p, 2, 2, 2, 4, 1, 1, 0)) + ((54) * mn(p, 2, 2, 2, 3, 3, 0, 0) + (3078) * mn(p, 2, 2, 2, 3, 1, 2, 1)))))) + (((((-162) * mn(p, 2, 2, 2, 2, 3, 1, 1) + ((-810) * mn(p, 2, 2, 2, 2, 1, 3, 2) + (486) * mn(p, 2, 2, 2, 2, 1, 3, 0))) + (((-3321) * mn(p, 2, 2, 2, 1, 1, 4, 1) + (-27) * mn(p, 2, 2, 2, 0, 5, 1, 0)) + ((378) * mn(p, 2, 2, 2, 0, 3, 3, 1) + (891) * mn(p, 2, 2, 2, 0, 1, 5, 2)))) + (((1215) * mn(p, 2, 2, 2, 0, 1, 5, 0) + ((-486) * mn(p, 2, 1, 3, 4, 2, 0, 0) + (1782) * mn(p, 2, 1, 3, 3, 2, 1, 1))) + (((-54) * mn(p, 2, 1, 3, 2, 4, 0, 1) + (-810) * mn(p, 2, 1, 3, 2, 2, 2, 2)) + ((486) * mn(p, 2, 1, 3, 2, 2, 2, 0) + (-4050) * mn(p, 2, 1, 3, 1, 2, 3, 1))))) + ((((162) * mn(p, 2, 1, 3, 0, 4, 2, 1) + ((1458) * mn(p, 2, 1, 3, 0, 2, 4, 2) + (1944) * mn(p, 2, 1, 3, 0, 2, 4, 0))) + (((162) * mn(p, 2, 0, 4, 3, 3, 0, 1) + (-162) * mn(p, 2, 0, 4, 2, 3, 1, 2)) + ((243) * mn(p, 2, 0, 4, 2, 3, 1, 0) + (-1296) * mn(p, 2, 0, 4, 1, 3, 2, 1)))) + (((729) * mn(p, 2, 0, 4, 0, 3, 3, 2) + ((972) * mn(p, 2, 0, 4, 0, 3, 3, 0) + (18) * mn(p, 1, 5, 0, 3, 2, 1, 0))) + (((3) * mn(p, 1, 5, 0, 0, 4, 2, 0) + (-9) * mn(p, 1, 5, 0, 0, 2, 4, 1)) + ((-54) * mn(p, 1, 4, 1, 4, 1, 1, 0) + (18) * mn(p, 1, 4, 1, 3, 3, 0, 0)))))))) + (((((((-54) * mn(p, 1, 4, 1, 3, 1, 2, 1) + ((-36) * mn(p, 1, 4, 1, 1, 3, 2, 0) + (270) * mn(p, 1, 4, 1, 1, 1, 4, 1))) + (((6) * mn(p, 1, 4, 1, 0, 5, 1, 0) + (-18) * mn(p, 1, 4, 1, 0, 3, 3, 1)) + ((-54) * mn(p, 1, 4, 1, 0, 1, 5, 2) + (-162) * mn(p, 1, 4, 1, 0, 1, 5, 0)))) + (((-324) * mn(p, 1, 3, 2, 5, 0, 1, 0) + ((810) * mn(p, 1, 3, 2, 4, 0, 2, 1) + (-108) * mn(p, 1, 3, 2, 3, 2, 1, 1))) + (((-324) * mn(p, 1, 3, 2, 3, 0, 3, 2) + (-1296) * mn(p, 1, 3, 2, 2, 0, 4, 1)) + ((-36) * mn(p, 1, 3, 2, 1, 4, 1, 0) + (810) * mn(p, 1, 3, 2, 1, 2, 3, 1))))) + ((((810) * mn(p, 1, 3, 2, 1, 0, 5, 2) + ((972) * mn(p, 1, 3, 2, 1, 0, 5, 0) + (3) * mn(p, 1, 3, 2, 0, 6, 0, 0))) + (((-9) * mn(p, 1, 3, 2, 0, 4, 2, 1) + (-189) * mn(p, 1, 3, 2, 0, 2, 4, 2)) + ((-648) * mn(p, 1, 3, 2, 0, 2, 4, 0) + (-81) * mn(p, 1, 3, 2, 0, 0, 6, 3)))) + (((-486) * mn(p, 1, 3, 2, 0, 0, 6, 1) + ((-162) * mn(p, 1, 2, 3, 5, 1, 0, 0) + (810) * mn(p, 1, 2, 3, 4, 1, 1, 1))) + (((-54) * mn(p, 1, 2, 3, 3, 3, 0, 1) + (-486) * mn(p, 1, 2, 3, 3, 1, 2, 2)) + ((648) * mn(p, 1, 2, 3, 3, 1, 2, 0) + (-162) * mn(p, 1, 2, 3, 2, 3, 1, 0)))))) + (((((-4050) * mn(p, 1, 2, 3, 2, 1, 3, 1) + ((810) * mn(p, 1, 2, 3, 1, 3, 2, 1) + (2754) * mn(p, 1, 2, 3, 1, 1, 4, 2))) + (((3402) * mn(p, 1, 2, 3, 1, 1, 4, 0) + (-216) * mn(p, 1, 2, 3, 0, 3, 3, 2)) + ((-810) * mn(p, 1, 2, 3, 0, 3, 3, 0) + (-324) * mn(p, 1, 2, 3, 0, 1, 5, 3)))) + (((-1944) * mn(p, 1, 2, 3, 0, 1, 5, 1) + ((162) * mn(p, 1, 1, 4, 4, 2, 0, 1) + (-162) * mn(p, 1, 1, 4, 3, 2, 1, 2))) + (((648) * mn(p, 1, 1, 4, 3, 2, 1, 0) + (-81) * mn(p, 1, 1, 4, 2, 4, 0, 0)) + ((-3321) * mn(p, 1, 1, 4, 2, 2, 2, 1) + (270) * mn(p, 1, 1, 4, 1, 4, 1, 1))))) + ((((2754) * mn(p, 1, 1, 4, 1, 2, 3, 2) + ((3402) * mn(p, 1, 1, 4, 1, 2, 3, 0) + (-81) * mn(p, 1, 1, 4, 0, 4, 2, 2))) + (((-324) * mn(p, 1, 1, 4, 0, 4, 2, 0) + (-405) * mn(p, 1, 1, 4, 0, 2, 4, 3)) + ((-2430) * mn(p, 1, 1, 4, 0, 2, 4, 1) + (162) * mn(p, 1, 0, 5, 3, 3, 0, 0)))) + (((-810) * mn(p, 1, 0, 5, 2, 3, 1, 1) + ((810) * mn(p, 1, 0, 5, 1, 3, 2, 2) + (972) * mn(p, 1, 0, 5, 1, 3, 2, 0))) + (((-162) * mn(p, 1, 0, 5, 0, 3, 3, 3) + (-972) * mn(p, 1, 0, 5, 0, 3, 3, 1)) + ((3) * mn(p, 0, 6, 0, 1, 3, 2, 0) + (-27) * mn(p, 0, 5, 1, 2, 2, 2, 0))))))) + ((((((6) * mn(p, 0, 5, 1, 1, 4, 1, 0) + ((27) * mn(p, 0, 5, 1, 0, 2, 4, 0) + (-36) * mn(p, 0, 4, 2, 2, 3, 1, 0))) + (((162) * mn(p, 0, 4, 2, 2, 1, 3, 1) + (3) * mn(p, 0, 4, 2, 1, 5, 0, 0)) + ((-9) * mn(p, 0, 4, 2, 1, 3, 2, 1) + (-81) * mn(p, 0, 4, 2, 1, 1, 4, 2)))) + (((-324) * mn(p, 0, 4, 2, 1, 1, 4, 0) + ((81) * mn(p, 0, 4, 2, 0, 3, 3, 0) + (162) * mn(p, 0, 4, 2, 0, 1, 5, 1))) + (((324) * mn(p, 0, 3, 3, 4, 0, 2, 0) + (-54) * mn(p, 0, 3, 3, 3, 2, 1, 0)) + ((-972) * mn(p, 0, 3, 3, 3, 0, 3, 1) + (-9) * mn(p, 0, 3, 3, 2, 4, 0, 0))))) + ((((378) * mn(p, 0, 3, 3, 2, 2, 2, 1) + ((729) * mn(p, 0, 3, 3, 2, 0, 4, 2) + (972) * mn(p, 0, 3, 3, 2, 0, 4, 0))) + (((-18) * mn(p, 0, 3, 3, 1, 4, 1, 1) + (-216) * mn(p, 0, 3, 3, 1, 2, 3, 2)) + ((-810) * mn(p, 0, 3, 3, 1, 2, 3, 0) + (-162) * mn(p, 0, 3, 3, 1, 0, 5, 3)))) + (((-972) * mn(p, 0, 3, 3, 1, 0, 5, 1) + ((81) * mn(p, 0, 3, 3, 0, 4, 2, 0) + (486) * mn(p, 0, 3, 3, 0, 2, 4, 1))) + (((243) * mn(p, 0, 3, 3, 0, 0, 6, 2) + (324) * mn(p, 0, 2, 4, 4, 1, 1, 0)) + ((-27) * mn(p, 0, 2, 4, 3, 3, 0, 0) + (-1458) * mn(p, 0, 2, 4, 3, 1, 2, 1)))))) + (((((270) * mn(p, 0, 2, 4, 2, 3, 1, 1) + ((1458) * mn(p, 0, 2, 4, 2, 1, 3, 2) + (1944) * mn(p, 0, 2, 4, 2, 1, 3, 0))) + (((-9) * mn(p, 0, 2, 4, 1, 5, 0, 1) + (-189) * mn(p, 0, 2, 4, 1, 3, 2, 2)) + ((-648) * mn(p, 0, 2, 4, 1, 3, 2, 0) + (-405) * mn(p, 0, 2, 4, 1, 1, 4, 3)))) + (((-2430) * mn(p, 0, 2, 4, 1, 1, 4, 1) + ((27) * mn(p, 0, 2, 4, 0, 5, 1, 0) + (486) * mn(p, 0, 2, 4, 0, 3, 3, 1))) + (((729) * mn(p, 0, 2, 4, 0, 1, 5, 2) + (81) * mn(p, 0, 1, 5, 4, 2, 0, 0)) + ((-648) * mn(p, 0, 1, 5, 3, 2, 1, 1) + (54) * mn(p, 0, 1, 5, 2, 4, 0, 1))))) + ((((891) * mn(p, 0, 1, 5, 2, 2, 2, 2) + ((1215) * mn(p, 0, 1, 5, 2, 2, 2, 0) + (-54) * mn(p, 0, 1, 5, 1, 4, 1, 2))) + (((-162) * mn(p, 0, 1, 5, 1, 4, 1, 0) + (-324) * mn(p, 0, 1, 5, 1, 2, 3, 3)) + ((-1944) * mn(p, 0, 1, 5, 1, 2, 3, 1) + (162) * mn(p, 0, 1, 5, 0, 4, 2, 1)))) + (((729) * mn(p, 0, 1, 5, 0, 2, 4, 2) + ((-81) * mn(p, 0, 0, 6, 3, 3, 0, 1) + (162) * mn(p, 0, 0, 6, 2, 3, 1, 2))) + (((243) * mn(p, 0, 0, 6, 2, 3, 1, 0) + (-81) * mn(p, 0, 0, 6, 1, 3, 2, 3)) + ((-486) * mn(p, 0, 0, 6, 1, 3, 2, 1) + (243) * mn(p, 0, 0, 6, 0, 3, 3, 2))))))))));
    let n7 = n3 - n6;
    assert(n7 == (((((((((-81) * mn(p, 6, 0, 0, 2, 3, 1, 0) + (27) * mn(p, 6, 0, 0, 0, 3, 3, 0)) + ((-324) * mn(p, 5, 1, 0, 3, 2, 1, 0) + (-27) * mn(p, 5, 1, 0, 2, 4, 0, 0))) + (((81) * mn(p, 5, 1, 0, 2, 2, 2, 1) + (324) * mn(p, 5, 1, 0, 1, 2, 3, 0)) + ((27) * mn(p, 5, 1, 0, 0, 4, 2, 0) + ((-81) * mn(p, 5, 1, 0, 0, 2, 4, 1) + (-162) * mn(p, 5, 0, 1, 3, 3, 0, 0))))) + ((((162) * mn(p, 5, 0, 1, 2, 3, 1, 1) + (486) * mn(p, 5, 0, 1, 1, 3, 2, 0)) + ((-162) * mn(p, 5, 0, 1, 0, 3, 3, 1) + (-405) * mn(p, 4, 2, 0, 4, 1, 1, 0))) + (((-81) * mn(p, 4, 2, 0, 3, 3, 0, 0) + (162) * mn(p, 4, 2, 0, 3, 1, 2, 1)) + ((810) * mn(p, 4, 2, 0, 2, 1, 3, 0) + ((135) * mn(p, 4, 2, 0, 1, 3, 2, 0) + (-486) * mn(p, 4, 2, 0, 1, 1, 4, 1)))))) + (((((9) * mn(p, 4, 2, 0, 0, 5, 1, 0) + (-54) * mn(p, 4, 2, 0, 0, 3, 3, 1)) + ((81) * mn(p, 4, 2, 0, 0, 1, 5, 2) + (-81) * mn(p, 4, 2, 0, 0, 1, 5, 0))) + (((-405) * mn(p, 4, 1, 1, 4, 2, 0, 0) + (486) * mn(p, 4, 1, 1, 3, 2, 1, 1)) + ((2106) * mn(p, 4, 1, 1, 2, 2, 2, 0) + ((162) * mn(p, 4, 1, 1, 1, 4, 1, 0) + (-1944) * mn(p, 4, 1, 1, 1, 2, 3, 1))))) + ((((-108) * mn(p, 4, 1, 1, 0, 4, 2, 1) + (324) * mn(p, 4, 1, 1, 0, 2, 4, 2)) + ((-81) * mn(p, 4, 1, 1, 0, 2, 4, 0) + ((81) * mn(p, 4, 0, 2, 3, 3, 0, 1) + (891) * mn(p, 4, 0, 2, 2, 3, 1, 0)))) + (((-1539) * mn(p, 4, 0, 2, 1, 3, 2, 1) + (324) * mn(p, 4, 0, 2, 0, 3, 3, 2)) + ((-81) * mn(p, 4, 0, 2, 0, 3, 3, 0) + ((-162) * mn(p, 3, 3, 0, 5, 0, 1, 0) + (-81) * mn(p, 3, 3, 0, 4, 2, 0, 0))))))) + ((((((81) * mn(p, 3, 3, 0, 4, 0, 2, 1) + (540) * mn(p, 3, 3, 0, 3, 0, 3, 0)) + ((162) * mn(p, 3, 3, 0, 2, 2, 2, 0) + (-486) * mn(p, 3, 3, 0, 2, 0, 4, 1))) + (((18) * mn(p, 3, 3, 0, 1, 4, 1, 0) + (-108) * mn(p, 3, 3, 0, 1, 2, 3, 1)) + ((162) * mn(p, 3, 3, 0, 1, 0, 5, 2) + ((-162) * mn(p, 3, 3, 0, 1, 0, 5, 0) + (1) * mn(p, 3, 3, 0, 0, 6, 0, 0))))) + ((((-9) * mn(p, 3, 3, 0, 0, 4, 2, 1) + (27) * mn(p, 3, 3, 0, 0, 2, 4, 2)) + ((27) * mn(p, 3, 3, 0, 0, 2, 4, 0) + (-27) * mn(p, 3, 3, 0, 0, 0, 6, 3))) + (((81) * mn(p, 3, 3, 0, 0, 0, 6, 1) + (-324) * mn(p, 3, 2, 1, 5, 1, 0, 0)) + ((486) * mn(p, 3, 2, 1, 4, 1, 1, 1) + ((2592) * mn(p, 3, 2, 1, 3, 1, 2, 0) + (432) * mn(p, 3, 2, 1, 2, 3, 1, 0)))))) + (((((-3888) * mn(p, 3, 2, 1, 2, 1, 3, 1) + (-432) * mn(p, 3, 2, 1, 1, 3, 2, 1)) + ((1296) * mn(p, 3, 2, 1, 1, 1, 4, 2) + (324) * mn(p, 3, 2, 1, 1, 1, 4, 0))) + (((-18) * mn(p, 3, 2, 1, 0, 5, 1, 1) + (108) * mn(p, 3, 2, 1, 0, 3, 3, 2)) + ((216) * mn(p, 3, 2, 1, 0, 3, 3, 0) + ((-162) * mn(p, 3, 2, 1, 0, 1, 5, 3) + (162) * mn(p, 3, 2, 1, 0, 1, 5, 1))))) + ((((162) * mn(p, 3, 1, 2, 4, 2, 0, 1) + (2592) * mn(p, 3, 1, 2, 3, 2, 1, 0)) + ((54) * mn(p, 3, 1, 2, 2, 4, 0, 0) + ((-5994) * mn(p, 3, 1, 2, 2, 2, 2, 1) + (-216) * mn(p, 3, 1, 2, 1, 4, 1, 1)))) + (((2592) * mn(p, 3, 1, 2, 1, 2, 3, 2) + (1296) * mn(p, 3, 1, 2, 1, 2, 3, 0)) + ((108) * mn(p, 3, 1, 2, 0, 4, 2, 2) + ((162) * mn(p, 3, 1, 2, 0, 4, 2, 0) + (-324) * mn(p, 3, 1, 2, 0, 2, 4, 3)))))))) + (((((((540) * mn(p, 3, 0, 3, 3, 3, 0, 0) + (-1944) * mn(p, 3, 0, 3, 2, 3, 1, 1)) + ((1296) * mn(p, 3, 0, 3, 1, 3, 2, 2) + (972) * mn(p, 3, 0, 3, 1, 3, 2, 0))) + (((-216) * mn(p, 3, 0, 3, 0, 3, 3, 3) + (-27) * mn(p, 2, 4, 0, 5, 1, 0, 0)) + ((54) * mn(p, 2, 4, 0, 3, 1, 2, 0) + ((9) * mn(p, 2, 4, 0, 2, 3, 1, 0) + (-54) * mn(p, 2, 4, 0, 2, 1, 3, 1))))) + ((((3) * mn(p, 2, 4, 0, 1, 5, 0, 0) + (-18) * mn(p, 2, 4, 0, 1, 3, 2, 1)) + ((27) * mn(p, 2, 4, 0, 1, 1, 4, 2) + (81) * mn(p, 2, 4, 0, 1, 1, 4, 0))) + (((9) * mn(p, 2, 4, 0, 0, 3, 3, 0) + (-54) * mn(p, 2, 4, 0, 0, 1, 5, 1)) + ((-81) * mn(p, 2, 3, 1, 6, 0, 0, 0) + ((162) * mn(p, 2, 3, 1, 5, 0, 1, 1) + (891) * mn(p, 2, 3, 1, 4, 0, 2, 0)))))) + (((((432) * mn(p, 2, 3, 1, 3, 2, 1, 0) + (-1944) * mn(p, 2, 3, 1, 3, 0, 3, 1)) + ((9) * mn(p, 2, 3, 1, 2, 4, 0, 0) + (-540) * mn(p, 2, 3, 1, 2, 2, 2, 1))) + (((891) * mn(p, 2, 3, 1, 2, 0, 4, 2) + (729) * mn(p, 2, 3, 1, 2, 0, 4, 0)) + ((-54) * mn(p, 2, 3, 1, 1, 4, 1, 1) + ((216) * mn(p, 2, 3, 1, 1, 2, 3, 2) + (648) * mn(p, 2, 3, 1, 1, 2, 3, 0))))) + ((((-162) * mn(p, 2, 3, 1, 1, 0, 5, 3) + (-162) * mn(p, 2, 3, 1, 1, 0, 5, 1)) + ((63) * mn(p, 2, 3, 1, 0, 4, 2, 0) + ((-432) * mn(p, 2, 3, 1, 0, 2, 4, 1) + (81) * mn(p, 2, 3, 1, 0, 0, 6, 2)))) + (((-243) * mn(p, 2, 3, 1, 0, 0, 6, 0) + (81) * mn(p, 2, 2, 2, 5, 1, 0, 1)) + ((2106) * mn(p, 2, 2, 2, 4, 1, 1, 0) + ((162) * mn(p, 2, 2, 2, 3, 3, 0, 0) + (-5994) * mn(p, 2, 2, 2, 3, 1, 2, 1))))))) + ((((((-540) * mn(p, 2, 2, 2, 2, 3, 1, 1) + (3726) * mn(p, 2, 2, 2, 2, 1, 3, 2)) + ((2916) * mn(p, 2, 2, 2, 2, 1, 3, 0) + (-9) * mn(p, 2, 2, 2, 1, 5, 0, 1))) + (((378) * mn(p, 2, 2, 2, 1, 3, 2, 2) + (810) * mn(p, 2, 2, 2, 1, 3, 2, 0)) + ((-729) * mn(p, 2, 2, 2, 1, 1, 4, 3) + ((-1539) * mn(p, 2, 2, 2, 1, 1, 4, 1) + (54) * mn(p, 2, 2, 2, 0, 5, 1, 0))))) + ((((-864) * mn(p, 2, 2, 2, 0, 3, 3, 1) + (324) * mn(p, 2, 2, 2, 0, 1, 5, 2)) + ((-486) * mn(p, 2, 2, 2, 0, 1, 5, 0) + ((810) * mn(p, 2, 1, 3, 4, 2, 0, 0) + (-3888) * mn(p, 2, 1, 3, 3, 2, 1, 1)))) + (((-54) * mn(p, 2, 1, 3, 2, 4, 0, 1) + (3726) * mn(p, 2, 1, 3, 2, 2, 2, 2)) + ((2916) * mn(p, 2, 1, 3, 2, 2, 2, 0) + ((108) * mn(p, 2, 1, 3, 1, 4, 1, 2) + (324) * mn(p, 2, 1, 3, 1, 4, 1, 0)))))) + (((((-972) * mn(p, 2, 1, 3, 1, 2, 3, 3) + (-2268) * mn(p, 2, 1, 3, 1, 2, 3, 1)) + ((-486) * mn(p, 2, 1, 3, 0, 4, 2, 1) + (486) * mn(p, 2, 1, 3, 0, 2, 4, 2))) + (((-486) * mn(p, 2, 1, 3, 0, 2, 4, 0) + (-486) * mn(p, 2, 0, 4, 3, 3, 0, 1)) + ((891) * mn(p, 2, 0, 4, 2, 3, 1, 2) + ((729) * mn(p, 2, 0, 4, 2, 3, 1, 0) + (-324) * mn(p, 2, 0, 4, 1, 3, 2, 3))))) + ((((-1134) * mn(p, 2, 0, 4, 1, 3, 2, 1) + (243) * mn(p, 2, 0, 4, 0, 3, 3, 2)) + ((-243) * mn(p, 2, 0, 4, 0, 3, 3, 0) + ((3) * mn(p, 1, 5, 0, 2, 4, 0, 0) + (-9) * mn(p, 1, 5, 0, 2, 2, 2, 1)))) + (((-3) * mn(p, 1, 5, 0, 0, 4, 2, 0) + (9) * mn(p, 1, 5, 0, 0, 2, 4, 1)) + ((162) * mn(p, 1, 4, 1, 4, 1, 1, 0) + ((18) * mn(p, 1, 4, 1, 3, 3, 0, 0) + (-216) * mn(p, 1, 4, 1, 3, 1, 2, 1))))))))) + ((((((((-54) * mn(p, 1, 4, 1, 2, 3, 1, 1) + (108) * mn(p, 1, 4, 1, 2, 1, 3, 2)) + ((324) * mn(p, 1, 4, 1, 2, 1, 3, 0) + (90) * mn(p, 1, 4, 1, 1, 3, 2, 0))) + (((-432) * mn(p, 1, 4, 1, 1, 1, 4, 1) + (-6) * mn(p, 1, 4, 1, 0, 5, 1, 0)) + ((18) * mn(p, 1, 4, 1, 0, 3, 3, 1) + ((54) * mn(p, 1, 4, 1, 0, 1, 5, 2) + (162) * mn(p, 1, 4, 1, 0, 1, 5, 0))))) + ((((486) * mn(p, 1, 3, 2, 5, 0, 1, 0) + (135) * mn(p, 1, 3, 2, 4, 2, 0, 0)) + ((-1539) * mn(p, 1, 3, 2, 4, 0, 2, 1) + (-432) * mn(p, 1, 3, 2, 3, 2, 1, 1))) + (((1296) * mn(p, 1, 3, 2, 3, 0, 3, 2) + (972) * mn(p, 1, 3, 2, 3, 0, 3, 0)) + ((-18) * mn(p, 1, 3, 2, 2, 4, 0, 1) + ((378) * mn(p, 1, 3, 2, 2, 2, 2, 2) + (810) * mn(p, 1, 3, 2, 2, 2, 2, 0)))))) + (((((-324) * mn(p, 1, 3, 2, 2, 0, 4, 3) + (-1134) * mn(p, 1, 3, 2, 2, 0, 4, 1)) + ((90) * mn(p, 1, 3, 2, 1, 4, 1, 0) + (-1620) * mn(p, 1, 3, 2, 1, 2, 3, 1))) + (((162) * mn(p, 1, 3, 2, 1, 0, 5, 2) + (486) * mn(p, 1, 3, 2, 1, 0, 5, 0)) + ((-3) * mn(p, 1, 3, 2, 0, 6, 0, 0) + ((9) * mn(p, 1, 3, 2, 0, 4, 2, 1) + (189) * mn(p, 1, 3, 2, 0, 2, 4, 2))))) + ((((891) * mn(p, 1, 3, 2, 0, 2, 4, 0) + (81) * mn(p, 1, 3, 2, 0, 0, 6, 3)) + ((-243) * mn(p, 1, 3, 2, 0, 0, 6, 1) + ((324) * mn(p, 1, 2, 3, 5, 1, 0, 0) + (-1944) * mn(p, 1, 2, 3, 4, 1, 1, 1)))) + (((-108) * mn(p, 1, 2, 3, 3, 3, 0, 1) + (2592) * mn(p, 1, 2, 3, 3, 1, 2, 2)) + ((1296) * mn(p, 1, 2, 3, 3, 1, 2, 0) + ((216) * mn(p, 1, 2, 3, 2, 3, 1, 2) + (648) * mn(p, 1, 2, 3, 2, 3, 1, 0))))))) + ((((((-972) * mn(p, 1, 2, 3, 2, 1, 3, 3) + (-2268) * mn(p, 1, 2, 3, 2, 1, 3, 1)) + ((-1620) * mn(p, 1, 2, 3, 1, 3, 2, 1) + (648) * mn(p, 1, 2, 3, 1, 1, 4, 2))) + (((972) * mn(p, 1, 2, 3, 1, 1, 4, 0) + (216) * mn(p, 1, 2, 3, 0, 3, 3, 2)) + ((1296) * mn(p, 1, 2, 3, 0, 3, 3, 0) + ((324) * mn(p, 1, 2, 3, 0, 1, 5, 3) + (-972) * mn(p, 1, 2, 3, 0, 1, 5, 1))))) + ((((-486) * mn(p, 1, 1, 4, 4, 2, 0, 1) + (1296) * mn(p, 1, 1, 4, 3, 2, 1, 2)) + ((324) * mn(p, 1, 1, 4, 3, 2, 1, 0) + (27) * mn(p, 1, 1, 4, 2, 4, 0, 2))) + (((81) * mn(p, 1, 1, 4, 2, 4, 0, 0) + (-729) * mn(p, 1, 1, 4, 2, 2, 2, 3)) + ((-1539) * mn(p, 1, 1, 4, 2, 2, 2, 1) + ((-432) * mn(p, 1, 1, 4, 1, 4, 1, 1) + (648) * mn(p, 1, 1, 4, 1, 2, 3, 2)))))) + (((((972) * mn(p, 1, 1, 4, 1, 2, 3, 0) + (81) * mn(p, 1, 1, 4, 0, 4, 2, 2)) + ((567) * mn(p, 1, 1, 4, 0, 4, 2, 0) + (405) * mn(p, 1, 1, 4, 0, 2, 4, 3))) + (((-1215) * mn(p, 1, 1, 4, 0, 2, 4, 1) + (162) * mn(p, 1, 0, 5, 3, 3, 0, 2)) + ((-162) * mn(p, 1, 0, 5, 3, 3, 0, 0) + ((-162) * mn(p, 1, 0, 5, 2, 3, 1, 3) + (-162) * mn(p, 1, 0, 5, 2, 3, 1, 1))))) + ((((162) * mn(p, 1, 0, 5, 1, 3, 2, 2) + (486) * mn(p, 1, 0, 5, 1, 3, 2, 0)) + ((162) * mn(p, 1, 0, 5, 0, 3, 3, 3) + ((-486) * mn(p, 1, 0, 5, 0, 3, 3, 1) + (1) * mn(p, 0, 6, 0, 3, 3, 0, 0)))) + (((-3) * mn(p, 0, 6, 0, 1, 3, 2, 0) + (9) * mn(p, 0, 5, 1, 4, 2, 0, 0)) + ((-18) * mn(p, 0, 5, 1, 3, 2, 1, 1) + ((54) * mn(p, 0, 5, 1, 2, 2, 2, 0) + (-6) * mn(p, 0, 5, 1, 1, 4, 1, 0)))))))) + (((((((-27) * mn(p, 0, 5, 1, 0, 2, 4, 0) + (27) * mn(p, 0, 4, 2, 5, 1, 0, 0)) + ((-108) * mn(p, 0, 4, 2, 4, 1, 1, 1) + (-9) * mn(p, 0, 4, 2, 3, 3, 0, 1))) + (((108) * mn(p, 0, 4, 2, 3, 1, 2, 2) + (162) * mn(p, 0, 4, 2, 3, 1, 2, 0)) + ((63) * mn(p, 0, 4, 2, 2, 3, 1, 0) + ((-486) * mn(p, 0, 4, 2, 2, 1, 3, 1) + (-3) * mn(p, 0, 4, 2, 1, 5, 0, 0))))) + ((((9) * mn(p, 0, 4, 2, 1, 3, 2, 1) + (81) * mn(p, 0, 4, 2, 1, 1, 4, 2)) + ((567) * mn(p, 0, 4, 2, 1, 1, 4, 0) + (-81) * mn(p, 0, 4, 2, 0, 3, 3, 0))) + (((-162) * mn(p, 0, 4, 2, 0, 1, 5, 1) + (27) * mn(p, 0, 3, 3, 6, 0, 0, 0)) + ((-162) * mn(p, 0, 3, 3, 5, 0, 1, 1) + ((-54) * mn(p, 0, 3, 3, 4, 2, 0, 1) + (324) * mn(p, 0, 3, 3, 4, 0, 2, 2)))))) + (((((-81) * mn(p, 0, 3, 3, 4, 0, 2, 0) + (108) * mn(p, 0, 3, 3, 3, 2, 1, 2)) + ((216) * mn(p, 0, 3, 3, 3, 2, 1, 0) + (-216) * mn(p, 0, 3, 3, 3, 0, 3, 3))) + (((9) * mn(p, 0, 3, 3, 2, 4, 0, 0) + (-864) * mn(p, 0, 3, 3, 2, 2, 2, 1)) + ((243) * mn(p, 0, 3, 3, 2, 0, 4, 2) + ((-243) * mn(p, 0, 3, 3, 2, 0, 4, 0) + (18) * mn(p, 0, 3, 3, 1, 4, 1, 1))))) + ((((216) * mn(p, 0, 3, 3, 1, 2, 3, 2) + (1296) * mn(p, 0, 3, 3, 1, 2, 3, 0)) + ((162) * mn(p, 0, 3, 3, 1, 0, 5, 3) + ((-486) * mn(p, 0, 3, 3, 1, 0, 5, 1) + (-81) * mn(p, 0, 3, 3, 0, 4, 2, 0)))) + (((-486) * mn(p, 0, 3, 3, 0, 2, 4, 1) + (-243) * mn(p, 0, 3, 3, 0, 0, 6, 2)) + ((729) * mn(p, 0, 3, 3, 0, 0, 6, 0) + ((-81) * mn(p, 0, 2, 4, 5, 1, 0, 1) + (324) * mn(p, 0, 2, 4, 4, 1, 1, 2))))))) + ((((((-81) * mn(p, 0, 2, 4, 4, 1, 1, 0) + (27) * mn(p, 0, 2, 4, 3, 3, 0, 2)) + ((27) * mn(p, 0, 2, 4, 3, 3, 0, 0) + (-324) * mn(p, 0, 2, 4, 3, 1, 2, 3))) + (((-432) * mn(p, 0, 2, 4, 2, 3, 1, 1) + (486) * mn(p, 0, 2, 4, 2, 1, 3, 2)) + ((-486) * mn(p, 0, 2, 4, 2, 1, 3, 0) + ((9) * mn(p, 0, 2, 4, 1, 5, 0, 1) + (189) * mn(p, 0, 2, 4, 1, 3, 2, 2))))) + ((((891) * mn(p, 0, 2, 4, 1, 3, 2, 0) + (405) * mn(p, 0, 2, 4, 1, 1, 4, 3)) + ((-1215) * mn(p, 0, 2, 4, 1, 1, 4, 1) + ((-27) * mn(p, 0, 2, 4, 0, 5, 1, 0) + (-486) * mn(p, 0, 2, 4, 0, 3, 3, 1)))) + (((-729) * mn(p, 0, 2, 4, 0, 1, 5, 2) + (2187) * mn(p, 0, 2, 4, 0, 1, 5, 0)) + ((81) * mn(p, 0, 1, 5, 4, 2, 0, 2) + ((-81) * mn(p, 0, 1, 5, 4, 2, 0, 0) + (-162) * mn(p, 0, 1, 5, 3, 2, 1, 3)))))) + (((((162) * mn(p, 0, 1, 5, 3, 2, 1, 1) + (-54) * mn(p, 0, 1, 5, 2, 4, 0, 1)) + ((324) * mn(p, 0, 1, 5, 2, 2, 2, 2) + (-486) * mn(p, 0, 1, 5, 2, 2, 2, 0))) + (((54) * mn(p, 0, 1, 5, 1, 4, 1, 2) + (162) * mn(p, 0, 1, 5, 1, 4, 1, 0)) + ((324) * mn(p, 0, 1, 5, 1, 2, 3, 3) + ((-972) * mn(p, 0, 1, 5, 1, 2, 3, 1) + (-162) * mn(p, 0, 1, 5, 0, 4, 2, 1))))) + ((((-729) * mn(p, 0, 1, 5, 0, 2, 4, 2) + (2187) * mn(p, 0, 1, 5, 0, 2, 4, 0)) + ((-27) * mn(p, 0, 0, 6, 3, 3, 0, 3) + ((81) * mn(p, 0, 0, 6, 3, 3, 0, 1) + (81) * mn(p, 0, 0, 6, 2, 3, 1, 2)))) + (((-243) * mn(p, 0, 0, 6, 2, 3, 1, 0) + (81) * mn(p, 0, 0, 6, 1, 3, 2, 3)) + ((-243) * mn(p, 0, 0, 6, 1, 3, 2, 1) + ((-243) * mn(p, 0, 0, 6, 0, 3, 3, 2) + (729) * mn(p, 0, 0, 6, 0, 3, 3, 0)))))))))));
    acb_prod16(p);
    let n8 = zz * zz;
    assert(n8 == ((((((9) * mn(p, 4, 0, 0, 2, 2, 0, 0) + ((18) * mn(p, 3, 1, 0, 3, 1, 0, 0) + (-18) * mn(p, 3, 1, 0, 1, 1, 2, 0))) + ((-36) * mn(p, 3, 0, 1, 1, 2, 1, 0) + ((9) * mn(p, 2, 2, 0, 4, 0, 0, 0) + (-18) * mn(p, 2, 2, 0, 2, 0, 2, 0)))) + (((6) * mn(p, 2, 2, 0, 1, 2, 1, 0) + ((9) * mn(p, 2, 2, 0, 0, 0, 4, 0) + (-72) * mn(p, 2, 1, 1, 2, 1, 1, 0))) + ((6) * mn(p, 2, 1, 1, 1, 3, 0, 0) + ((18) * mn(p, 2, 1, 1, 1, 1, 2, 1) + (36) * mn(p, 2, 1, 1, 0, 1, 3, 0))))) + ((((-18) * mn(p, 2, 0, 2, 2, 2, 0, 0) + ((18) * mn(p, 2, 0, 2, 1, 2, 1, 1) + (36) * mn(p, 2, 0, 2, 0, 2, 2, 0))) + ((6) * mn(p, 1, 3, 0, 2, 1, 1, 0) + ((-6) * mn(p, 1, 3, 0, 0, 1, 3, 0) + (-36) * mn(p, 1, 2, 1, 3, 0, 1, 0)))) + (((6) * mn(p, 1, 2, 1, 2, 2, 0, 0) + ((18) * mn(p, 1, 2, 1, 2, 0, 2, 1) + (36) * mn(p, 1, 2, 1, 1, 0, 3, 0))) + ((-18) * mn(p, 1, 2, 1, 0, 2, 2, 0) + ((-18) * mn(p, 1, 2, 1, 0, 0, 4, 1) + (-18) * mn(p, 1, 1, 2, 3, 1, 0, 0)))))) + (((((18) * mn(p, 1, 1, 2, 2, 1, 1, 1) + ((90) * mn(p, 1, 1, 2, 1, 1, 2, 0) + (-12) * mn(p, 1, 1, 2, 0, 3, 1, 0))) + ((-54) * mn(p, 1, 1, 2, 0, 1, 3, 1) + ((36) * mn(p, 1, 0, 3, 1, 2, 1, 0) + (-36) * mn(p, 1, 0, 3, 0, 2, 2, 1)))) + (((1) * mn(p, 0, 4, 0, 0, 2, 2, 0) + ((-12) * mn(p, 0, 3, 1, 1, 1, 2, 0) + (2) * mn(p, 0, 3, 1, 0, 3, 1, 0))) + ((6) * mn(p, 0, 3, 1, 0, 1, 3, 1) + ((36) * mn(p, 0, 2, 2, 2, 0, 2, 0) + (-18) * mn(p, 0, 2, 2, 1, 2, 1, 0))))) + ((((-36) * mn(p, 0, 2, 2, 1, 0, 3, 1) + ((1) * mn(p, 0, 2, 2, 0, 4, 0, 0) + (12) * mn(p, 0, 2, 2, 0, 2, 2, 1))) + ((9) * mn(p, 0, 2, 2, 0, 0, 4, 2) + ((36) * mn(p, 0, 1, 3, 2, 1, 1, 0) + (-6) * mn(p, 0, 1, 3, 1, 3, 0, 0)))) + (((-54) * mn(p, 0, 1, 3, 1, 1, 2, 1) + ((6) * mn(p, 0, 1, 3, 0, 3, 1, 1) + (18) * mn(p, 0, 1, 3, 0, 1, 3, 2))) + ((9) * mn(p, 0, 0, 4, 2, 2, 0, 0) + ((-18) * mn(p, 0, 0, 4, 1, 2, 1, 1) + (9) * mn(p, 0, 0, 4, 0, 2, 2, 2))))))));
    acb_prod18(p);
    let n9 = n8 * zz;
    assert(n9 == ((((((((27) * mn(p, 6, 0, 0, 3, 3, 0, 0) + (81) * mn(p, 5, 1, 0, 4, 2, 0, 0)) + ((-81) * mn(p, 5, 1, 0, 2, 2, 2, 0) + (-162) * mn(p, 5, 0, 1, 2, 3, 1, 0))) + (((81) * mn(p, 4, 2, 0, 5, 1, 0, 0) + (-162) * mn(p, 4, 2, 0, 3, 1, 2, 0)) + ((27) * mn(p, 4, 2, 0, 2, 3, 1, 0) + ((81) * mn(p, 4, 2, 0, 1, 1, 4, 0) + (-486) * mn(p, 4, 1, 1, 3, 2, 1, 0))))) + ((((27) * mn(p, 4, 1, 1, 2, 4, 0, 0) + (81) * mn(p, 4, 1, 1, 2, 2, 2, 1)) + ((324) * mn(p, 4, 1, 1, 1, 2, 3, 0) + ((-81) * mn(p, 4, 0, 2, 3, 3, 0, 0) + (81) * mn(p, 4, 0, 2, 2, 3, 1, 1)))) + (((324) * mn(p, 4, 0, 2, 1, 3, 2, 0) + (27) * mn(p, 3, 3, 0, 6, 0, 0, 0)) + ((-81) * mn(p, 3, 3, 0, 4, 0, 2, 0) + ((54) * mn(p, 3, 3, 0, 3, 2, 1, 0) + (81) * mn(p, 3, 3, 0, 2, 0, 4, 0)))))) + (((((-54) * mn(p, 3, 3, 0, 1, 2, 3, 0) + (-27) * mn(p, 3, 3, 0, 0, 0, 6, 0)) + ((-486) * mn(p, 3, 2, 1, 4, 1, 1, 0) + ((54) * mn(p, 3, 2, 1, 3, 3, 0, 0) + (162) * mn(p, 3, 2, 1, 3, 1, 2, 1)))) + (((648) * mn(p, 3, 2, 1, 2, 1, 3, 0) + (-162) * mn(p, 3, 2, 1, 1, 3, 2, 0)) + ((-162) * mn(p, 3, 2, 1, 1, 1, 4, 1) + ((-162) * mn(p, 3, 2, 1, 0, 1, 5, 0) + (-162) * mn(p, 3, 1, 2, 4, 2, 0, 0))))) + ((((162) * mn(p, 3, 1, 2, 3, 2, 1, 1) + (1134) * mn(p, 3, 1, 2, 2, 2, 2, 0)) + ((-108) * mn(p, 3, 1, 2, 1, 4, 1, 0) + ((-486) * mn(p, 3, 1, 2, 1, 2, 3, 1) + (-324) * mn(p, 3, 1, 2, 0, 2, 4, 0)))) + (((324) * mn(p, 3, 0, 3, 2, 3, 1, 0) + (-324) * mn(p, 3, 0, 3, 1, 3, 2, 1)) + ((-216) * mn(p, 3, 0, 3, 0, 3, 3, 0) + ((27) * mn(p, 2, 4, 0, 4, 1, 1, 0) + (-54) * mn(p, 2, 4, 0, 2, 1, 3, 0))))))) + ((((((9) * mn(p, 2, 4, 0, 1, 3, 2, 0) + (27) * mn(p, 2, 4, 0, 0, 1, 5, 0)) + ((-162) * mn(p, 2, 3, 1, 5, 0, 1, 0) + ((27) * mn(p, 2, 3, 1, 4, 2, 0, 0) + (81) * mn(p, 2, 3, 1, 4, 0, 2, 1)))) + (((324) * mn(p, 2, 3, 1, 3, 0, 3, 0) + (-270) * mn(p, 2, 3, 1, 2, 2, 2, 0)) + ((-162) * mn(p, 2, 3, 1, 2, 0, 4, 1) + ((18) * mn(p, 2, 3, 1, 1, 4, 1, 0) + (54) * mn(p, 2, 3, 1, 1, 2, 3, 1))))) + ((((-162) * mn(p, 2, 3, 1, 1, 0, 5, 0) + (135) * mn(p, 2, 3, 1, 0, 2, 4, 0)) + ((81) * mn(p, 2, 3, 1, 0, 0, 6, 1) + ((-81) * mn(p, 2, 2, 2, 5, 1, 0, 0) + (81) * mn(p, 2, 2, 2, 4, 1, 1, 1)))) + (((1134) * mn(p, 2, 2, 2, 3, 1, 2, 0) + (-270) * mn(p, 2, 2, 2, 2, 3, 1, 0)) + ((-810) * mn(p, 2, 2, 2, 2, 1, 3, 1) + ((9) * mn(p, 2, 2, 2, 1, 5, 0, 0) + (108) * mn(p, 2, 2, 2, 1, 3, 2, 1)))))) + (((((81) * mn(p, 2, 2, 2, 1, 1, 4, 2) + (-729) * mn(p, 2, 2, 2, 1, 1, 4, 0)) + ((216) * mn(p, 2, 2, 2, 0, 3, 3, 0) + ((405) * mn(p, 2, 2, 2, 0, 1, 5, 1) + (648) * mn(p, 2, 1, 3, 3, 2, 1, 0)))) + (((-54) * mn(p, 2, 1, 3, 2, 4, 0, 0) + (-810) * mn(p, 2, 1, 3, 2, 2, 2, 1)) + ((54) * mn(p, 2, 1, 3, 1, 4, 1, 1) + ((162) * mn(p, 2, 1, 3, 1, 2, 3, 2) + (-972) * mn(p, 2, 1, 3, 1, 2, 3, 0))))) + ((((108) * mn(p, 2, 1, 3, 0, 4, 2, 0) + (648) * mn(p, 2, 1, 3, 0, 2, 4, 1)) + ((81) * mn(p, 2, 0, 4, 3, 3, 0, 0) + ((-162) * mn(p, 2, 0, 4, 2, 3, 1, 1) + (81) * mn(p, 2, 0, 4, 1, 3, 2, 2)))) + (((-324) * mn(p, 2, 0, 4, 1, 3, 2, 0) + (324) * mn(p, 2, 0, 4, 0, 3, 3, 1)) + ((9) * mn(p, 1, 5, 0, 2, 2, 2, 0) + ((-9) * mn(p, 1, 5, 0, 0, 2, 4, 0) + (-108) * mn(p, 1, 4, 1, 3, 1, 2, 0)))))))) + (((((((18) * mn(p, 1, 4, 1, 2, 3, 1, 0) + (54) * mn(p, 1, 4, 1, 2, 1, 3, 1)) + ((108) * mn(p, 1, 4, 1, 1, 1, 4, 0) + (-36) * mn(p, 1, 4, 1, 0, 3, 3, 0))) + (((-54) * mn(p, 1, 4, 1, 0, 1, 5, 1) + (324) * mn(p, 1, 3, 2, 4, 0, 2, 0)) + ((-162) * mn(p, 1, 3, 2, 3, 2, 1, 0) + ((-324) * mn(p, 1, 3, 2, 3, 0, 3, 1) + (9) * mn(p, 1, 3, 2, 2, 4, 0, 0))))) + ((((108) * mn(p, 1, 3, 2, 2, 2, 2, 1) + (81) * mn(p, 1, 3, 2, 2, 0, 4, 2)) + ((-324) * mn(p, 1, 3, 2, 2, 0, 4, 0) + ((378) * mn(p, 1, 3, 2, 1, 2, 3, 0) + (324) * mn(p, 1, 3, 2, 1, 0, 5, 1)))) + (((-45) * mn(p, 1, 3, 2, 0, 4, 2, 0) + (-216) * mn(p, 1, 3, 2, 0, 2, 4, 1)) + ((-81) * mn(p, 1, 3, 2, 0, 0, 6, 2) + ((324) * mn(p, 1, 2, 3, 4, 1, 1, 0) + (-54) * mn(p, 1, 2, 3, 3, 3, 0, 0)))))) + (((((-486) * mn(p, 1, 2, 3, 3, 1, 2, 1) + (54) * mn(p, 1, 2, 3, 2, 3, 1, 1)) + ((162) * mn(p, 1, 2, 3, 2, 1, 3, 2) + ((-972) * mn(p, 1, 2, 3, 2, 1, 3, 0) + (378) * mn(p, 1, 2, 3, 1, 3, 2, 0)))) + (((1134) * mn(p, 1, 2, 3, 1, 1, 4, 1) + (-18) * mn(p, 1, 2, 3, 0, 5, 1, 0)) + ((-270) * mn(p, 1, 2, 3, 0, 3, 3, 1) + ((-324) * mn(p, 1, 2, 3, 0, 1, 5, 2) + (81) * mn(p, 1, 1, 4, 4, 2, 0, 0))))) + ((((-162) * mn(p, 1, 1, 4, 3, 2, 1, 1) + (81) * mn(p, 1, 1, 4, 2, 2, 2, 2)) + ((-729) * mn(p, 1, 1, 4, 2, 2, 2, 0) + ((108) * mn(p, 1, 1, 4, 1, 4, 1, 0) + (1134) * mn(p, 1, 1, 4, 1, 2, 3, 1)))) + (((-108) * mn(p, 1, 1, 4, 0, 4, 2, 1) + (-405) * mn(p, 1, 1, 4, 0, 2, 4, 2)) + ((-162) * mn(p, 1, 0, 5, 2, 3, 1, 0) + ((324) * mn(p, 1, 0, 5, 1, 3, 2, 1) + (-162) * mn(p, 1, 0, 5, 0, 3, 3, 2))))))) + ((((((1) * mn(p, 0, 6, 0, 0, 3, 3, 0) + (-18) * mn(p, 0, 5, 1, 1, 2, 3, 0)) + ((3) * mn(p, 0, 5, 1, 0, 4, 2, 0) + ((9) * mn(p, 0, 5, 1, 0, 2, 4, 1) + (108) * mn(p, 0, 4, 2, 2, 1, 3, 0)))) + (((-45) * mn(p, 0, 4, 2, 1, 3, 2, 0) + (-108) * mn(p, 0, 4, 2, 1, 1, 4, 1)) + ((3) * mn(p, 0, 4, 2, 0, 5, 1, 0) + ((27) * mn(p, 0, 4, 2, 0, 3, 3, 1) + (27) * mn(p, 0, 4, 2, 0, 1, 5, 2))))) + ((((-216) * mn(p, 0, 3, 3, 3, 0, 3, 0) + (216) * mn(p, 0, 3, 3, 2, 2, 2, 0)) + ((324) * mn(p, 0, 3, 3, 2, 0, 4, 1) + ((-36) * mn(p, 0, 3, 3, 1, 4, 1, 0) + (-270) * mn(p, 0, 3, 3, 1, 2, 3, 1)))) + (((-162) * mn(p, 0, 3, 3, 1, 0, 5, 2) + (1) * mn(p, 0, 3, 3, 0, 6, 0, 0)) + ((27) * mn(p, 0, 3, 3, 0, 4, 2, 1) + ((81) * mn(p, 0, 3, 3, 0, 2, 4, 2) + (27) * mn(p, 0, 3, 3, 0, 0, 6, 3)))))) + (((((-324) * mn(p, 0, 2, 4, 3, 1, 2, 0) + (135) * mn(p, 0, 2, 4, 2, 3, 1, 0)) + ((648) * mn(p, 0, 2, 4, 2, 1, 3, 1) + ((-9) * mn(p, 0, 2, 4, 1, 5, 0, 0) + (-216) * mn(p, 0, 2, 4, 1, 3, 2, 1)))) + (((-405) * mn(p, 0, 2, 4, 1, 1, 4, 2) + (9) * mn(p, 0, 2, 4, 0, 5, 1, 1)) + ((81) * mn(p, 0, 2, 4, 0, 3, 3, 2) + ((81) * mn(p, 0, 2, 4, 0, 1, 5, 3) + (-162) * mn(p, 0, 1, 5, 3, 2, 1, 0))))) + ((((27) * mn(p, 0, 1, 5, 2, 4, 0, 0) + (405) * mn(p, 0, 1, 5, 2, 2, 2, 1)) + ((-54) * mn(p, 0, 1, 5, 1, 4, 1, 1) + ((-324) * mn(p, 0, 1, 5, 1, 2, 3, 2) + (27) * mn(p, 0, 1, 5, 0, 4, 2, 2)))) + (((81) * mn(p, 0, 1, 5, 0, 2, 4, 3) + (-27) * mn(p, 0, 0, 6, 3, 3, 0, 0)) + ((81) * mn(p, 0, 0, 6, 2, 3, 1, 1) + ((-81) * mn(p, 0, 0, 6, 1, 3, 2, 2) + (27) * mn(p, 0, 0, 6, 0, 3, 3, 3))))))))));
    acb_prod21(p);
    let n10 = p.v6 * n9;
    assert(n10 == ((((((((27) * mn(p, 6, 0, 0, 3, 3, 0, 1) + (81) * mn(p, 5, 1, 0, 4, 2, 0, 1)) + ((-81) * mn(p, 5, 1, 0, 2, 2, 2, 1) + (-162) * mn(p, 5, 0, 1, 2, 3, 1, 1))) + (((81) * mn(p, 4, 2, 0, 5, 1, 0, 1) + (-162) * mn(p, 4, 2, 0, 3, 1, 2, 1)) + ((27) * mn(p, 4, 2, 0, 2, 3, 1, 1) + ((81) * mn(p, 4, 2, 0, 1, 1, 4, 1) + (-486) * mn(p, 4, 1, 1, 3, 2, 1, 1))))) + ((((27) * mn(p, 4, 1, 1, 2, 4, 0, 1) + (81) * mn(p, 4, 1, 1, 2, 2, 2, 2)) + ((324) * mn(p, 4, 1, 1, 1, 2, 3, 1) + ((-81) * mn(p, 4, 0, 2, 3, 3, 0, 1) + (81) * mn(p, 4, 0, 2, 2, 3, 1, 2)))) + (((324) * mn(p, 4, 0, 2, 1, 3, 2, 1) + (27) * mn(p, 3, 3, 0, 6, 0, 0, 1)) + ((-81) * mn(p, 3, 3, 0, 4, 0, 2, 1) + ((54) * mn(p, 3, 3, 0, 3, 2, 1, 1) + (81) * mn(p, 3, 3, 0, 2, 0, 4, 1)))))) + (((((-54) * mn(p, 3, 3, 0, 1, 2, 3, 1) + (-27) * mn(p, 3, 3, 0, 0, 0, 6, 1)) + ((-486) * mn(p, 3, 2, 1, 4, 1, 1, 1) + ((54) * mn(p, 3, 2, 1, 3, 3, 0, 1) + (162) * mn(p, 3, 2, 1, 3, 1, 2, 2)))) + (((648) * mn(p, 3, 2, 1, 2, 1, 3, 1) + (-162) * mn(p, 3, 2, 1, 1, 3, 2, 1)) + ((-162) * mn(p, 3, 2, 1, 1, 1, 4, 2) + ((-162) * mn(p, 3, 2, 1, 0, 1, 5, 1) + (-162) * mn(p, 3, 1, 2, 4, 2, 0, 1))))) + ((((162) * mn(p, 3, 1, 2, 3, 2, 1, 2) + (1134) * mn(p, 3, 1, 2, 2, 2, 2, 1)) + ((-108) * mn(p, 3, 1, 2, 1, 4, 1, 1) + ((-486) * mn(p, 3, 1, 2, 1, 2, 3, 2) + (-324) * mn(p, 3, 1, 2, 0, 2, 4, 1)))) + (((324) * mn(p, 3, 0, 3, 2, 3, 1, 1) + (-324) * mn(p, 3, 0, 3, 1, 3, 2, 2)) + ((-216) * mn(p, 3, 0, 3, 0, 3, 3, 1) + ((27) * mn(p, 2, 4, 0, 4, 1, 1, 1) + (-54) * mn(p, 2, 4, 0, 2, 1, 3, 1))))))) + ((((((9) * mn(p, 2, 4, 0, 1, 3, 2, 1) + (27) * mn(p, 2, 4, 0, 0, 1, 5, 1)) + ((-162) * mn(p, 2, 3, 1, 5, 0, 1, 1) + ((27) * mn(p, 2, 3, 1, 4, 2, 0, 1) + (81) * mn(p, 2, 3, 1, 4, 0, 2, 2)))) + (((324) * mn(p, 2, 3, 1, 3, 0, 3, 1) + (-270) * mn(p, 2, 3, 1, 2, 2, 2, 1)) + ((-162) * mn(p, 2, 3, 1, 2, 0, 4, 2) + ((18) * mn(p, 2, 3, 1, 1, 4, 1, 1) + (54) * mn(p, 2, 3, 1, 1, 2, 3, 2))))) + ((((-162) * mn(p, 2, 3, 1, 1, 0, 5, 1) + (135) * mn(p, 2, 3, 1, 0, 2, 4, 1)) + ((81) * mn(p, 2, 3, 1, 0, 0, 6, 2) + ((-81) * mn(p, 2, 2, 2, 5, 1, 0, 1) + (81) * mn(p, 2, 2, 2, 4, 1, 1, 2)))) + (((1134) * mn(p, 2, 2, 2, 3, 1, 2, 1) + (-270) * mn(p, 2, 2, 2, 2, 3, 1, 1)) + ((-810) * mn(p, 2, 2, 2, 2, 1, 3, 2) + ((9) * mn(p, 2, 2, 2, 1, 5, 0, 1) + (108) * mn(p, 2, 2, 2, 1, 3, 2, 2)))))) + (((((81) * mn(p, 2, 2, 2, 1, 1, 4, 3) + (-729) * mn(p, 2, 2, 2, 1, 1, 4, 1)) + ((216) * mn(p, 2, 2, 2, 0, 3, 3, 1) + ((405) * mn(p, 2, 2, 2, 0, 1, 5, 2) + (648) * mn(p, 2, 1, 3, 3, 2, 1, 1)))) + (((-54) * mn(p, 2, 1, 3, 2, 4, 0, 1) + (-810) * mn(p, 2, 1, 3, 2, 2, 2, 2)) + ((54) * mn(p, 2, 1, 3, 1, 4, 1, 2) + ((162) * mn(p, 2, 1, 3, 1, 2, 3, 3) + (-972) * mn(p, 2, 1, 3, 1, 2, 3, 1))))) + ((((108) * mn(p, 2, 1, 3, 0, 4, 2, 1) + (648) * mn(p, 2, 1, 3, 0, 2, 4, 2)) + ((81) * mn(p, 2, 0, 4, 3, 3, 0, 1) + ((-162) * mn(p, 2, 0, 4, 2, 3, 1, 2) + (81) * mn(p, 2, 0, 4, 1, 3, 2, 3)))) + (((-324) * mn(p, 2, 0, 4, 1, 3, 2, 1) + (324) * mn(p, 2, 0, 4, 0, 3, 3, 2)) + ((9) * mn(p, 1, 5, 0, 2, 2, 2, 1) + ((-9) * mn(p, 1, 5, 0, 0, 2, 4, 1) + (-108) * mn(p, 1, 4, 1, 3, 1, 2, 1)))))))) + (((((((18) * mn(p, 1, 4, 1, 2, 3, 1, 1) + (54) * mn(p, 1, 4, 1, 2, 1, 3, 2)) + ((108) * mn(p, 1, 4, 1, 1, 1, 4, 1) + (-36) * mn(p, 1, 4, 1, 0, 3, 3, 1))) + (((-54) * mn(p, 1, 4, 1, 0, 1, 5, 2) + (324) * mn(p, 1, 3, 2, 4, 0, 2, 1)) + ((-162) * mn(p, 1, 3, 2, 3, 2, 1, 1) + ((-324) * mn(p, 1, 3, 2, 3, 0, 3, 2) + (9) * mn(p, 1, 3, 2, 2, 4, 0, 1))))) + ((((108) * mn(p, 1, 3, 2, 2, 2, 2, 2) + (81) * mn(p, 1, 3, 2, 2, 0, 4, 3)) + ((-324) * mn(p, 1, 3, 2, 2, 0, 4, 1) + ((378) * mn(p, 1, 3, 2, 1, 2, 3, 1) + (324) * mn(p, 1, 3, 2, 1, 0, 5, 2)))) + (((-45) * mn(p, 1, 3, 2, 0, 4, 2, 1) + (-216) * mn(p, 1, 3, 2, 0, 2, 4, 2)) + ((-81) * mn(p, 1, 3, 2, 0, 0, 6, 3) + ((324) * mn(p, 1, 2, 3, 4, 1, 1, 1) + (-54) * mn(p, 1, 2, 3, 3, 3, 0, 1)))))) + (((((-486) * mn(p, 1, 2, 3, 3, 1, 2, 2) + (54) * mn(p, 1, 2, 3, 2, 3, 1, 2)) + ((162) * mn(p, 1, 2, 3, 2, 1, 3, 3) + ((-972) * mn(p, 1, 2, 3, 2, 1, 3, 1) + (378) * mn(p, 1, 2, 3, 1, 3, 2, 1)))) + (((1134) * mn(p, 1, 2, 3, 1, 1, 4, 2) + (-18) * mn(p, 1, 2, 3, 0, 5, 1, 1)) + ((-270) * mn(p, 1, 2, 3, 0, 3, 3, 2) + ((-324) * mn(p, 1, 2, 3, 0, 1, 5, 3) + (81) * mn(p, 1, 1, 4, 4, 2, 0, 1))))) + ((((-162) * mn(p, 1, 1, 4, 3, 2, 1, 2) + (81) * mn(p, 1, 1, 4, 2, 2, 2, 3)) + ((-729) * mn(p, 1, 1, 4, 2, 2, 2, 1) + ((108) * mn(p, 1, 1, 4, 1, 4, 1, 1) + (1134) * mn(p, 1, 1, 4, 1, 2, 3, 2)))) + (((-108) * mn(p, 1, 1, 4, 0, 4, 2, 2) + (-405) * mn(p, 1, 1, 4, 0, 2, 4, 3)) + ((-162) * mn(p, 1, 0, 5, 2, 3, 1, 1) + ((324) * mn(p, 1, 0, 5, 1, 3, 2, 2) + (-162) * mn(p, 1, 0, 5, 0, 3, 3, 3))))))) + ((((((1) * mn(p, 0, 6, 0, 0, 3, 3, 1) + (-18) * mn(p, 0, 5, 1, 1, 2, 3, 1)) + ((3) * mn(p, 0, 5, 1, 0, 4, 2, 1) + ((9) * mn(p, 0, 5, 1, 0, 2, 4, 2) + (108) * mn(p, 0, 4, 2, 2, 1, 3, 1)))) + (((-45) * mn(p, 0, 4, 2, 1, 3, 2, 1) + (-108) * mn(p, 0, 4, 2, 1, 1, 4, 2)) + ((3) * mn(p, 0, 4, 2, 0, 5, 1, 1) + ((27) * mn(p, 0, 4, 2, 0, 3, 3, 2) + (27) * mn(p, 0, 4, 2, 0, 1, 5, 3))))) + ((((-216) * mn(p, 0, 3, 3, 3, 0, 3, 1) + (216) * mn(p, 0, 3, 3, 2, 2, 2, 1)) + ((324) * mn(p, 0, 3, 3, 2, 0, 4, 2) + ((-36) * mn(p, 0, 3, 3, 1, 4, 1, 1) + (-270) * mn(p, 0, 3, 3, 1, 2, 3, 2)))) + (((-162) * mn(p, 0, 3, 3, 1, 0, 5, 3) + (1) * mn(p, 0, 3, 3, 0, 6, 0, 1)) + ((27) * mn(p, 0, 3, 3, 0, 4, 2, 2) + ((81) * mn(p, 0, 3, 3, 0, 2, 4, 3) + (27) * mn(p, 0, 3, 3, 0, 0, 6, 4)))))) + (((((-324) * mn(p, 0, 2, 4, 3, 1, 2, 1) + (135) * mn(p, 0, 2, 4, 2, 3, 1, 1)) + ((648) * mn(p, 0, 2, 4, 2, 1, 3, 2) + ((-9) * mn(p, 0, 2, 4, 1, 5, 0, 1) + (-216) * mn(p, 0, 2, 4, 1, 3, 2, 2)))) + (((-405) * mn(p, 0, 2, 4, 1, 1, 4, 3) + (9) * mn(p, 0, 2, 4, 0, 5, 1, 2)) + ((81) * mn(p, 0, 2, 4, 0, 3, 3, 3) + ((81) * mn(p, 0, 2, 4, 0, 1, 5, 4) + (-162) * mn(p, 0, 1, 5, 3, 2, 1, 1))))) + ((((27) * mn(p, 0, 1, 5, 2, 4, 0, 1) + (405) * mn(p, 0, 1, 5, 2, 2, 2, 2)) + ((-54) * mn(p, 0, 1, 5, 1, 4, 1, 2) + ((-324) * mn(p, 0, 1, 5, 1, 2, 3, 3) + (27) * mn(p, 0, 1, 5, 0, 4, 2, 3)))) + (((81) * mn(p, 0, 1, 5, 0, 2, 4, 4) + (-27) * mn(p, 0, 0, 6, 3, 3, 0, 1)) + ((81) * mn(p, 0, 0, 6, 2, 3, 1, 2) + ((-81) * mn(p, 0, 0, 6, 1, 3, 2, 3) + (27) * mn(p, 0, 0, 6, 0, 3, 3, 4))))))))));
    let n11 = n7 + n10;
    assert(n11 == (((((((((27) * mn(p, 6, 0, 0, 3, 3, 0, 1) + (-81) * mn(p, 6, 0, 0, 2, 3, 1, 0)) + ((27) * mn(p, 6, 0, 0, 0, 3, 3, 0) + (81) * mn(p, 5, 1, 0, 4, 2, 0, 1))) + (((-324) * mn(p, 5, 1, 0, 3, 2, 1, 0) + (-27) * mn(p, 5, 1, 0, 2, 4, 0, 0)) + ((324) * mn(p, 5, 1, 0, 1, 2, 3, 0) + ((27) * mn(p, 5, 1, 0, 0, 4, 2, 0) + (-81) * mn(p, 5, 1, 0, 0, 2, 4, 1))))) + ((((-162) * mn(p, 5, 0, 1, 3, 3, 0, 0) + (486) * mn(p, 5, 0, 1, 1, 3, 2, 0)) + ((-162) * mn(p, 5, 0, 1, 0, 3, 3, 1) + ((81) * mn(p, 4, 2, 0, 5, 1, 0, 1) + (-405) * mn(p, 4, 2, 0, 4, 1, 1, 0)))) + (((-81) * mn(p, 4, 2, 0, 3, 3, 0, 0) + (27) * mn(p, 4, 2, 0, 2, 3, 1, 1)) + ((810) * mn(p, 4, 2, 0, 2, 1, 3, 0) + ((135) * mn(p, 4, 2, 0, 1, 3, 2, 0) + (-405) * mn(p, 4, 2, 0, 1, 1, 4, 1)))))) + (((((9) * mn(p, 4, 2, 0, 0, 5, 1, 0) + (-54) * mn(p, 4, 2, 0, 0, 3, 3, 1)) + ((81) * mn(p, 4, 2, 0, 0, 1, 5, 2) + (-81) * mn(p, 4, 2, 0, 0, 1, 5, 0))) + (((-405) * mn(p, 4, 1, 1, 4, 2, 0, 0) + (27) * mn(p, 4, 1, 1, 2, 4, 0, 1)) + ((81) * mn(p, 4, 1, 1, 2, 2, 2, 2) + ((2106) * mn(p, 4, 1, 1, 2, 2, 2, 0) + (162) * mn(p, 4, 1, 1, 1, 4, 1, 0))))) + ((((-1620) * mn(p, 4, 1, 1, 1, 2, 3, 1) + (-108) * mn(p, 4, 1, 1, 0, 4, 2, 1)) + ((324) * mn(p, 4, 1, 1, 0, 2, 4, 2) + ((-81) * mn(p, 4, 1, 1, 0, 2, 4, 0) + (81) * mn(p, 4, 0, 2, 2, 3, 1, 2)))) + (((891) * mn(p, 4, 0, 2, 2, 3, 1, 0) + (-1215) * mn(p, 4, 0, 2, 1, 3, 2, 1)) + ((324) * mn(p, 4, 0, 2, 0, 3, 3, 2) + ((-81) * mn(p, 4, 0, 2, 0, 3, 3, 0) + (27) * mn(p, 3, 3, 0, 6, 0, 0, 1))))))) + ((((((-162) * mn(p, 3, 3, 0, 5, 0, 1, 0) + (-81) * mn(p, 3, 3, 0, 4, 2, 0, 0)) + ((54) * mn(p, 3, 3, 0, 3, 2, 1, 1) + (540) * mn(p, 3, 3, 0, 3, 0, 3, 0))) + (((162) * mn(p, 3, 3, 0, 2, 2, 2, 0) + (-405) * mn(p, 3, 3, 0, 2, 0, 4, 1)) + ((18) * mn(p, 3, 3, 0, 1, 4, 1, 0) + ((-162) * mn(p, 3, 3, 0, 1, 2, 3, 1) + (162) * mn(p, 3, 3, 0, 1, 0, 5, 2))))) + ((((-162) * mn(p, 3, 3, 0, 1, 0, 5, 0) + (1) * mn(p, 3, 3, 0, 0, 6, 0, 0)) + ((-9) * mn(p, 3, 3, 0, 0, 4, 2, 1) + ((27) * mn(p, 3, 3, 0, 0, 2, 4, 2) + (27) * mn(p, 3, 3, 0, 0, 2, 4, 0)))) + (((-27) * mn(p, 3, 3, 0, 0, 0, 6, 3) + (54) * mn(p, 3, 3, 0, 0, 0, 6, 1)) + ((-324) * mn(p, 3, 2, 1, 5, 1, 0, 0) + ((54) * mn(p, 3, 2, 1, 3, 3, 0, 1) + (162) * mn(p, 3, 2, 1, 3, 1, 2, 2)))))) + (((((2592) * mn(p, 3, 2, 1, 3, 1, 2, 0) + (432) * mn(p, 3, 2, 1, 2, 3, 1, 0)) + ((-3240) * mn(p, 3, 2, 1, 2, 1, 3, 1) + ((-594) * mn(p, 3, 2, 1, 1, 3, 2, 1) + (1134) * mn(p, 3, 2, 1, 1, 1, 4, 2)))) + (((324) * mn(p, 3, 2, 1, 1, 1, 4, 0) + (-18) * mn(p, 3, 2, 1, 0, 5, 1, 1)) + ((108) * mn(p, 3, 2, 1, 0, 3, 3, 2) + ((216) * mn(p, 3, 2, 1, 0, 3, 3, 0) + (-162) * mn(p, 3, 2, 1, 0, 1, 5, 3))))) + ((((162) * mn(p, 3, 1, 2, 3, 2, 1, 2) + (2592) * mn(p, 3, 1, 2, 3, 2, 1, 0)) + ((54) * mn(p, 3, 1, 2, 2, 4, 0, 0) + ((-4860) * mn(p, 3, 1, 2, 2, 2, 2, 1) + (-324) * mn(p, 3, 1, 2, 1, 4, 1, 1)))) + (((2106) * mn(p, 3, 1, 2, 1, 2, 3, 2) + (1296) * mn(p, 3, 1, 2, 1, 2, 3, 0)) + ((108) * mn(p, 3, 1, 2, 0, 4, 2, 2) + ((162) * mn(p, 3, 1, 2, 0, 4, 2, 0) + (-324) * mn(p, 3, 1, 2, 0, 2, 4, 3)))))))) + (((((((-324) * mn(p, 3, 1, 2, 0, 2, 4, 1) + (540) * mn(p, 3, 0, 3, 3, 3, 0, 0)) + ((-1620) * mn(p, 3, 0, 3, 2, 3, 1, 1) + (972) * mn(p, 3, 0, 3, 1, 3, 2, 2))) + (((972) * mn(p, 3, 0, 3, 1, 3, 2, 0) + (-216) * mn(p, 3, 0, 3, 0, 3, 3, 3)) + ((-216) * mn(p, 3, 0, 3, 0, 3, 3, 1) + ((-27) * mn(p, 2, 4, 0, 5, 1, 0, 0) + (27) * mn(p, 2, 4, 0, 4, 1, 1, 1))))) + ((((54) * mn(p, 2, 4, 0, 3, 1, 2, 0) + (9) * mn(p, 2, 4, 0, 2, 3, 1, 0)) + ((-108) * mn(p, 2, 4, 0, 2, 1, 3, 1) + ((3) * mn(p, 2, 4, 0, 1, 5, 0, 0) + (-9) * mn(p, 2, 4, 0, 1, 3, 2, 1)))) + (((27) * mn(p, 2, 4, 0, 1, 1, 4, 2) + (81) * mn(p, 2, 4, 0, 1, 1, 4, 0)) + ((9) * mn(p, 2, 4, 0, 0, 3, 3, 0) + ((-27) * mn(p, 2, 4, 0, 0, 1, 5, 1) + (-81) * mn(p, 2, 3, 1, 6, 0, 0, 0)))))) + (((((27) * mn(p, 2, 3, 1, 4, 2, 0, 1) + (81) * mn(p, 2, 3, 1, 4, 0, 2, 2)) + ((891) * mn(p, 2, 3, 1, 4, 0, 2, 0) + ((432) * mn(p, 2, 3, 1, 3, 2, 1, 0) + (-1620) * mn(p, 2, 3, 1, 3, 0, 3, 1)))) + (((9) * mn(p, 2, 3, 1, 2, 4, 0, 0) + (-810) * mn(p, 2, 3, 1, 2, 2, 2, 1)) + ((729) * mn(p, 2, 3, 1, 2, 0, 4, 2) + ((729) * mn(p, 2, 3, 1, 2, 0, 4, 0) + (-36) * mn(p, 2, 3, 1, 1, 4, 1, 1))))) + ((((270) * mn(p, 2, 3, 1, 1, 2, 3, 2) + (648) * mn(p, 2, 3, 1, 1, 2, 3, 0)) + ((-162) * mn(p, 2, 3, 1, 1, 0, 5, 3) + ((-324) * mn(p, 2, 3, 1, 1, 0, 5, 1) + (63) * mn(p, 2, 3, 1, 0, 4, 2, 0)))) + (((-297) * mn(p, 2, 3, 1, 0, 2, 4, 1) + (162) * mn(p, 2, 3, 1, 0, 0, 6, 2)) + ((-243) * mn(p, 2, 3, 1, 0, 0, 6, 0) + ((81) * mn(p, 2, 2, 2, 4, 1, 1, 2) + (2106) * mn(p, 2, 2, 2, 4, 1, 1, 0))))))) + ((((((162) * mn(p, 2, 2, 2, 3, 3, 0, 0) + (-4860) * mn(p, 2, 2, 2, 3, 1, 2, 1)) + ((-810) * mn(p, 2, 2, 2, 2, 3, 1, 1) + (2916) * mn(p, 2, 2, 2, 2, 1, 3, 2))) + (((2916) * mn(p, 2, 2, 2, 2, 1, 3, 0) + (486) * mn(p, 2, 2, 2, 1, 3, 2, 2)) + ((810) * mn(p, 2, 2, 2, 1, 3, 2, 0) + ((-648) * mn(p, 2, 2, 2, 1, 1, 4, 3) + (-2268) * mn(p, 2, 2, 2, 1, 1, 4, 1))))) + ((((54) * mn(p, 2, 2, 2, 0, 5, 1, 0) + (-648) * mn(p, 2, 2, 2, 0, 3, 3, 1)) + ((729) * mn(p, 2, 2, 2, 0, 1, 5, 2) + ((-486) * mn(p, 2, 2, 2, 0, 1, 5, 0) + (810) * mn(p, 2, 1, 3, 4, 2, 0, 0)))) + (((-3240) * mn(p, 2, 1, 3, 3, 2, 1, 1) + (-108) * mn(p, 2, 1, 3, 2, 4, 0, 1)) + ((2916) * mn(p, 2, 1, 3, 2, 2, 2, 2) + ((2916) * mn(p, 2, 1, 3, 2, 2, 2, 0) + (162) * mn(p, 2, 1, 3, 1, 4, 1, 2)))))) + (((((324) * mn(p, 2, 1, 3, 1, 4, 1, 0) + (-810) * mn(p, 2, 1, 3, 1, 2, 3, 3)) + ((-3240) * mn(p, 2, 1, 3, 1, 2, 3, 1) + ((-378) * mn(p, 2, 1, 3, 0, 4, 2, 1) + (1134) * mn(p, 2, 1, 3, 0, 2, 4, 2)))) + (((-486) * mn(p, 2, 1, 3, 0, 2, 4, 0) + (-405) * mn(p, 2, 0, 4, 3, 3, 0, 1)) + ((729) * mn(p, 2, 0, 4, 2, 3, 1, 2) + ((729) * mn(p, 2, 0, 4, 2, 3, 1, 0) + (-243) * mn(p, 2, 0, 4, 1, 3, 2, 3))))) + ((((-1458) * mn(p, 2, 0, 4, 1, 3, 2, 1) + (567) * mn(p, 2, 0, 4, 0, 3, 3, 2)) + ((-243) * mn(p, 2, 0, 4, 0, 3, 3, 0) + ((3) * mn(p, 1, 5, 0, 2, 4, 0, 0) + (-3) * mn(p, 1, 5, 0, 0, 4, 2, 0)))) + (((162) * mn(p, 1, 4, 1, 4, 1, 1, 0) + (18) * mn(p, 1, 4, 1, 3, 3, 0, 0)) + ((-324) * mn(p, 1, 4, 1, 3, 1, 2, 1) + ((-36) * mn(p, 1, 4, 1, 2, 3, 1, 1) + (162) * mn(p, 1, 4, 1, 2, 1, 3, 2))))))))) + ((((((((324) * mn(p, 1, 4, 1, 2, 1, 3, 0) + (90) * mn(p, 1, 4, 1, 1, 3, 2, 0)) + ((-324) * mn(p, 1, 4, 1, 1, 1, 4, 1) + (-6) * mn(p, 1, 4, 1, 0, 5, 1, 0))) + (((-18) * mn(p, 1, 4, 1, 0, 3, 3, 1) + (162) * mn(p, 1, 4, 1, 0, 1, 5, 0)) + ((486) * mn(p, 1, 3, 2, 5, 0, 1, 0) + ((135) * mn(p, 1, 3, 2, 4, 2, 0, 0) + (-1215) * mn(p, 1, 3, 2, 4, 0, 2, 1))))) + ((((-594) * mn(p, 1, 3, 2, 3, 2, 1, 1) + (972) * mn(p, 1, 3, 2, 3, 0, 3, 2)) + ((972) * mn(p, 1, 3, 2, 3, 0, 3, 0) + ((-9) * mn(p, 1, 3, 2, 2, 4, 0, 1) + (486) * mn(p, 1, 3, 2, 2, 2, 2, 2)))) + (((810) * mn(p, 1, 3, 2, 2, 2, 2, 0) + (-243) * mn(p, 1, 3, 2, 2, 0, 4, 3)) + ((-1458) * mn(p, 1, 3, 2, 2, 0, 4, 1) + ((90) * mn(p, 1, 3, 2, 1, 4, 1, 0) + (-1242) * mn(p, 1, 3, 2, 1, 2, 3, 1)))))) + (((((486) * mn(p, 1, 3, 2, 1, 0, 5, 2) + (486) * mn(p, 1, 3, 2, 1, 0, 5, 0)) + ((-3) * mn(p, 1, 3, 2, 0, 6, 0, 0) + (-36) * mn(p, 1, 3, 2, 0, 4, 2, 1))) + (((-27) * mn(p, 1, 3, 2, 0, 2, 4, 2) + (891) * mn(p, 1, 3, 2, 0, 2, 4, 0)) + ((-243) * mn(p, 1, 3, 2, 0, 0, 6, 1) + ((324) * mn(p, 1, 2, 3, 5, 1, 0, 0) + (-1620) * mn(p, 1, 2, 3, 4, 1, 1, 1))))) + ((((-162) * mn(p, 1, 2, 3, 3, 3, 0, 1) + (2106) * mn(p, 1, 2, 3, 3, 1, 2, 2)) + ((1296) * mn(p, 1, 2, 3, 3, 1, 2, 0) + ((270) * mn(p, 1, 2, 3, 2, 3, 1, 2) + (648) * mn(p, 1, 2, 3, 2, 3, 1, 0)))) + (((-810) * mn(p, 1, 2, 3, 2, 1, 3, 3) + (-3240) * mn(p, 1, 2, 3, 2, 1, 3, 1)) + ((-1242) * mn(p, 1, 2, 3, 1, 3, 2, 1) + ((1782) * mn(p, 1, 2, 3, 1, 1, 4, 2) + (972) * mn(p, 1, 2, 3, 1, 1, 4, 0))))))) + ((((((-18) * mn(p, 1, 2, 3, 0, 5, 1, 1) + (-54) * mn(p, 1, 2, 3, 0, 3, 3, 2)) + ((1296) * mn(p, 1, 2, 3, 0, 3, 3, 0) + (-972) * mn(p, 1, 2, 3, 0, 1, 5, 1))) + (((-405) * mn(p, 1, 1, 4, 4, 2, 0, 1) + (1134) * mn(p, 1, 1, 4, 3, 2, 1, 2)) + ((324) * mn(p, 1, 1, 4, 3, 2, 1, 0) + ((27) * mn(p, 1, 1, 4, 2, 4, 0, 2) + (81) * mn(p, 1, 1, 4, 2, 4, 0, 0))))) + ((((-648) * mn(p, 1, 1, 4, 2, 2, 2, 3) + (-2268) * mn(p, 1, 1, 4, 2, 2, 2, 1)) + ((-324) * mn(p, 1, 1, 4, 1, 4, 1, 1) + ((1782) * mn(p, 1, 1, 4, 1, 2, 3, 2) + (972) * mn(p, 1, 1, 4, 1, 2, 3, 0)))) + (((-27) * mn(p, 1, 1, 4, 0, 4, 2, 2) + (567) * mn(p, 1, 1, 4, 0, 4, 2, 0)) + ((-1215) * mn(p, 1, 1, 4, 0, 2, 4, 1) + ((162) * mn(p, 1, 0, 5, 3, 3, 0, 2) + (-162) * mn(p, 1, 0, 5, 3, 3, 0, 0)))))) + (((((-162) * mn(p, 1, 0, 5, 2, 3, 1, 3) + (-324) * mn(p, 1, 0, 5, 2, 3, 1, 1)) + ((486) * mn(p, 1, 0, 5, 1, 3, 2, 2) + ((486) * mn(p, 1, 0, 5, 1, 3, 2, 0) + (-486) * mn(p, 1, 0, 5, 0, 3, 3, 1)))) + (((1) * mn(p, 0, 6, 0, 3, 3, 0, 0) + (-3) * mn(p, 0, 6, 0, 1, 3, 2, 0)) + ((1) * mn(p, 0, 6, 0, 0, 3, 3, 1) + ((9) * mn(p, 0, 5, 1, 4, 2, 0, 0) + (-18) * mn(p, 0, 5, 1, 3, 2, 1, 1))))) + ((((54) * mn(p, 0, 5, 1, 2, 2, 2, 0) + (-6) * mn(p, 0, 5, 1, 1, 4, 1, 0)) + ((-18) * mn(p, 0, 5, 1, 1, 2, 3, 1) + ((3) * mn(p, 0, 5, 1, 0, 4, 2, 1) + (9) * mn(p, 0, 5, 1, 0, 2, 4, 2)))) + (((-27) * mn(p, 0, 5, 1, 0, 2, 4, 0) + (27) * mn(p, 0, 4, 2, 5, 1, 0, 0)) + ((-108) * mn(p, 0, 4, 2, 4, 1, 1, 1) + ((-9) * mn(p, 0, 4, 2, 3, 3, 0, 1) + (108) * mn(p, 0, 4, 2, 3, 1, 2, 2)))))))) + (((((((162) * mn(p, 0, 4, 2, 3, 1, 2, 0) + (63) * mn(p, 0, 4, 2, 2, 3, 1, 0)) + ((-378) * mn(p, 0, 4, 2, 2, 1, 3, 1) + (-3) * mn(p, 0, 4, 2, 1, 5, 0, 0))) + (((-36) * mn(p, 0, 4, 2, 1, 3, 2, 1) + (-27) * mn(p, 0, 4, 2, 1, 1, 4, 2)) + ((567) * mn(p, 0, 4, 2, 1, 1, 4, 0) + ((3) * mn(p, 0, 4, 2, 0, 5, 1, 1) + (27) * mn(p, 0, 4, 2, 0, 3, 3, 2))))) + ((((-81) * mn(p, 0, 4, 2, 0, 3, 3, 0) + (27) * mn(p, 0, 4, 2, 0, 1, 5, 3)) + ((-162) * mn(p, 0, 4, 2, 0, 1, 5, 1) + ((27) * mn(p, 0, 3, 3, 6, 0, 0, 0) + (-162) * mn(p, 0, 3, 3, 5, 0, 1, 1)))) + (((-54) * mn(p, 0, 3, 3, 4, 2, 0, 1) + (324) * mn(p, 0, 3, 3, 4, 0, 2, 2)) + ((-81) * mn(p, 0, 3, 3, 4, 0, 2, 0) + ((108) * mn(p, 0, 3, 3, 3, 2, 1, 2) + (216) * mn(p, 0, 3, 3, 3, 2, 1, 0)))))) + (((((-216) * mn(p, 0, 3, 3, 3, 0, 3, 3) + (-216) * mn(p, 0, 3, 3, 3, 0, 3, 1)) + ((9) * mn(p, 0, 3, 3, 2, 4, 0, 0) + ((-648) * mn(p, 0, 3, 3, 2, 2, 2, 1) + (567) * mn(p, 0, 3, 3, 2, 0, 4, 2)))) + (((-243) * mn(p, 0, 3, 3, 2, 0, 4, 0) + (-18) * mn(p, 0, 3, 3, 1, 4, 1, 1)) + ((-54) * mn(p, 0, 3, 3, 1, 2, 3, 2) + ((1296) * mn(p, 0, 3, 3, 1, 2, 3, 0) + (-486) * mn(p, 0, 3, 3, 1, 0, 5, 1))))) + ((((1) * mn(p, 0, 3, 3, 0, 6, 0, 1) + (27) * mn(p, 0, 3, 3, 0, 4, 2, 2)) + ((-81) * mn(p, 0, 3, 3, 0, 4, 2, 0) + ((81) * mn(p, 0, 3, 3, 0, 2, 4, 3) + (-486) * mn(p, 0, 3, 3, 0, 2, 4, 1)))) + (((27) * mn(p, 0, 3, 3, 0, 0, 6, 4) + (-243) * mn(p, 0, 3, 3, 0, 0, 6, 2)) + ((729) * mn(p, 0, 3, 3, 0, 0, 6, 0) + ((-81) * mn(p, 0, 2, 4, 5, 1, 0, 1) + (324) * mn(p, 0, 2, 4, 4, 1, 1, 2))))))) + ((((((-81) * mn(p, 0, 2, 4, 4, 1, 1, 0) + (27) * mn(p, 0, 2, 4, 3, 3, 0, 2)) + ((27) * mn(p, 0, 2, 4, 3, 3, 0, 0) + (-324) * mn(p, 0, 2, 4, 3, 1, 2, 3))) + (((-324) * mn(p, 0, 2, 4, 3, 1, 2, 1) + (-297) * mn(p, 0, 2, 4, 2, 3, 1, 1)) + ((1134) * mn(p, 0, 2, 4, 2, 1, 3, 2) + ((-486) * mn(p, 0, 2, 4, 2, 1, 3, 0) + (-27) * mn(p, 0, 2, 4, 1, 3, 2, 2))))) + ((((891) * mn(p, 0, 2, 4, 1, 3, 2, 0) + (-1215) * mn(p, 0, 2, 4, 1, 1, 4, 1)) + ((9) * mn(p, 0, 2, 4, 0, 5, 1, 2) + ((-27) * mn(p, 0, 2, 4, 0, 5, 1, 0) + (81) * mn(p, 0, 2, 4, 0, 3, 3, 3)))) + (((-486) * mn(p, 0, 2, 4, 0, 3, 3, 1) + (81) * mn(p, 0, 2, 4, 0, 1, 5, 4)) + ((-729) * mn(p, 0, 2, 4, 0, 1, 5, 2) + ((2187) * mn(p, 0, 2, 4, 0, 1, 5, 0) + (81) * mn(p, 0, 1, 5, 4, 2, 0, 2)))))) + (((((-81) * mn(p, 0, 1, 5, 4, 2, 0, 0) + (-162) * mn(p, 0, 1, 5, 3, 2, 1, 3)) + ((-27) * mn(p, 0, 1, 5, 2, 4, 0, 1) + ((729) * mn(p, 0, 1, 5, 2, 2, 2, 2) + (-486) * mn(p, 0, 1, 5, 2, 2, 2, 0)))) + (((162) * mn(p, 0, 1, 5, 1, 4, 1, 0) + (-972) * mn(p, 0, 1, 5, 1, 2, 3, 1)) + ((27) * mn(p, 0, 1, 5, 0, 4, 2, 3) + ((-162) * mn(p, 0, 1, 5, 0, 4, 2, 1) + (81) * mn(p, 0, 1, 5, 0, 2, 4, 4))))) + ((((-729) * mn(p, 0, 1, 5, 0, 2, 4, 2) + (2187) * mn(p, 0, 1, 5, 0, 2, 4, 0)) + ((-27) * mn(p, 0, 0, 6, 3, 3, 0, 3) + ((54) * mn(p, 0, 0, 6, 3, 3, 0, 1) + (162) * mn(p, 0, 0, 6, 2, 3, 1, 2)))) + (((-243) * mn(p, 0, 0, 6, 2, 3, 1, 0) + (-243) * mn(p, 0, 0, 6, 1, 3, 2, 1)) + ((27) * mn(p, 0, 0, 6, 0, 3, 3, 4) + ((-243) * mn(p, 0, 0, 6, 0, 3, 3, 2) + (729) * mn(p, 0, 0, 6, 0, 3, 3, 0)))))))))));
    let n12 = n1 - n11;
    assert(n12 == (((((((((243) * mn(p, 6, 0, 0, 5, 1, 0, 0) + ((-486) * mn(p, 6, 0, 0, 4, 1, 1, 1) + (-27) * mn(p, 6, 0, 0, 3, 3, 0, 1))) + ((243) * mn(p, 6, 0, 0, 3, 1, 2, 2) + ((486) * mn(p, 6, 0, 0, 3, 1, 2, 0) + (81) * mn(p, 6, 0, 0, 2, 3, 1, 0)))) + (((-486) * mn(p, 6, 0, 0, 2, 1, 3, 1) + ((243) * mn(p, 6, 0, 0, 1, 1, 4, 0) + (-27) * mn(p, 6, 0, 0, 0, 3, 3, 0))) + (((243) * mn(p, 5, 1, 0, 6, 0, 0, 0) + (-486) * mn(p, 5, 1, 0, 5, 0, 1, 1)) + ((-81) * mn(p, 5, 1, 0, 4, 2, 0, 1) + (243) * mn(p, 5, 1, 0, 4, 0, 2, 2))))) + ((((243) * mn(p, 5, 1, 0, 4, 0, 2, 0) + ((324) * mn(p, 5, 1, 0, 3, 2, 1, 0) + (27) * mn(p, 5, 1, 0, 2, 4, 0, 0))) + (((-243) * mn(p, 5, 1, 0, 2, 0, 4, 2) + (-243) * mn(p, 5, 1, 0, 2, 0, 4, 0)) + ((-324) * mn(p, 5, 1, 0, 1, 2, 3, 0) + (486) * mn(p, 5, 1, 0, 1, 0, 5, 1)))) + (((-27) * mn(p, 5, 1, 0, 0, 4, 2, 0) + ((81) * mn(p, 5, 1, 0, 0, 2, 4, 1) + (-243) * mn(p, 5, 1, 0, 0, 0, 6, 0))) + (((-486) * mn(p, 5, 0, 1, 5, 1, 0, 1) + (486) * mn(p, 5, 0, 1, 4, 1, 1, 2)) + ((1458) * mn(p, 5, 0, 1, 4, 1, 1, 0) + (162) * mn(p, 5, 0, 1, 3, 3, 0, 0)))))) + (((((-1944) * mn(p, 5, 0, 1, 3, 1, 2, 1) + ((972) * mn(p, 5, 0, 1, 2, 1, 3, 0) + (-486) * mn(p, 5, 0, 1, 1, 3, 2, 0))) + (((486) * mn(p, 5, 0, 1, 1, 1, 4, 1) + (162) * mn(p, 5, 0, 1, 0, 3, 3, 1)) + ((-486) * mn(p, 5, 0, 1, 0, 1, 5, 0) + (-81) * mn(p, 4, 2, 0, 5, 1, 0, 1)))) + (((486) * mn(p, 4, 2, 0, 4, 1, 1, 0) + ((27) * mn(p, 4, 2, 0, 3, 3, 0, 0) + (-162) * mn(p, 4, 2, 0, 3, 1, 2, 1))) + (((27) * mn(p, 4, 2, 0, 2, 3, 1, 1) + (81) * mn(p, 4, 2, 0, 2, 1, 3, 2)) + ((-648) * mn(p, 4, 2, 0, 2, 1, 3, 0) + (-189) * mn(p, 4, 2, 0, 1, 3, 2, 0))))) + ((((243) * mn(p, 4, 2, 0, 1, 1, 4, 1) + ((-9) * mn(p, 4, 2, 0, 0, 5, 1, 0) + (54) * mn(p, 4, 2, 0, 0, 3, 3, 1))) + (((-81) * mn(p, 4, 2, 0, 0, 1, 5, 2) + (162) * mn(p, 4, 2, 0, 0, 1, 5, 0)) + ((-486) * mn(p, 4, 1, 1, 6, 0, 0, 1) + (486) * mn(p, 4, 1, 1, 5, 0, 1, 2)))) + (((1458) * mn(p, 4, 1, 1, 5, 0, 1, 0) + ((486) * mn(p, 4, 1, 1, 4, 2, 0, 0) + (-1215) * mn(p, 4, 1, 1, 4, 0, 2, 1))) + (((-162) * mn(p, 4, 1, 1, 3, 2, 1, 1) + (-972) * mn(p, 4, 1, 1, 3, 0, 3, 2)) + ((-972) * mn(p, 4, 1, 1, 3, 0, 3, 0) + (-27) * mn(p, 4, 1, 1, 2, 4, 0, 1))))))) + ((((((-1944) * mn(p, 4, 1, 1, 2, 2, 2, 0) + ((243) * mn(p, 4, 1, 1, 2, 0, 4, 3) + (3888) * mn(p, 4, 1, 1, 2, 0, 4, 1))) + (((-162) * mn(p, 4, 1, 1, 1, 4, 1, 0) + (1458) * mn(p, 4, 1, 1, 1, 2, 3, 1)) + ((-972) * mn(p, 4, 1, 1, 1, 0, 5, 2) + (-2430) * mn(p, 4, 1, 1, 1, 0, 5, 0)))) + (((108) * mn(p, 4, 1, 1, 0, 4, 2, 1) + ((-324) * mn(p, 4, 1, 1, 0, 2, 4, 2) + (162) * mn(p, 4, 1, 1, 0, 2, 4, 0))) + (((729) * mn(p, 4, 1, 1, 0, 0, 6, 1) + (243) * mn(p, 4, 0, 2, 5, 1, 0, 2)) + ((243) * mn(p, 4, 0, 2, 5, 1, 0, 0) + (-1215) * mn(p, 4, 0, 2, 4, 1, 1, 1))))) + ((((-243) * mn(p, 4, 0, 2, 3, 1, 2, 2) + ((-1458) * mn(p, 4, 0, 2, 3, 1, 2, 0) + (-81) * mn(p, 4, 0, 2, 2, 3, 1, 2))) + (((-891) * mn(p, 4, 0, 2, 2, 3, 1, 0) + (-243) * mn(p, 4, 0, 2, 2, 1, 3, 3)) + ((5832) * mn(p, 4, 0, 2, 2, 1, 3, 1) + (1215) * mn(p, 4, 0, 2, 1, 3, 2, 1)))) + (((-729) * mn(p, 4, 0, 2, 1, 1, 4, 2) + ((-5589) * mn(p, 4, 0, 2, 1, 1, 4, 0) + (-324) * mn(p, 4, 0, 2, 0, 3, 3, 2))) + (((81) * mn(p, 4, 0, 2, 0, 3, 3, 0) + (1215) * mn(p, 4, 0, 2, 0, 1, 5, 1)) + ((-27) * mn(p, 3, 3, 0, 6, 0, 0, 1) + (162) * mn(p, 3, 3, 0, 5, 0, 1, 0)))))) + (((((27) * mn(p, 3, 3, 0, 4, 2, 0, 0) + ((-540) * mn(p, 3, 3, 0, 3, 0, 3, 0) + (-162) * mn(p, 3, 3, 0, 2, 2, 2, 0))) + (((405) * mn(p, 3, 3, 0, 2, 0, 4, 1) + (-18) * mn(p, 3, 3, 0, 1, 4, 1, 0)) + ((108) * mn(p, 3, 3, 0, 1, 2, 3, 1) + (-162) * mn(p, 3, 3, 0, 1, 0, 5, 2)))) + (((162) * mn(p, 3, 3, 0, 1, 0, 5, 0) + ((-1) * mn(p, 3, 3, 0, 0, 6, 0, 0) + (9) * mn(p, 3, 3, 0, 0, 4, 2, 1))) + (((-27) * mn(p, 3, 3, 0, 0, 2, 4, 2) + (27) * mn(p, 3, 3, 0, 0, 2, 4, 0)) + ((27) * mn(p, 3, 3, 0, 0, 0, 6, 3) + (-54) * mn(p, 3, 3, 0, 0, 0, 6, 1))))) + ((((324) * mn(p, 3, 2, 1, 5, 1, 0, 0) + ((-162) * mn(p, 3, 2, 1, 4, 1, 1, 1) + (-1944) * mn(p, 3, 2, 1, 3, 1, 2, 0))) + (((-540) * mn(p, 3, 2, 1, 2, 3, 1, 0) + (2268) * mn(p, 3, 2, 1, 2, 1, 3, 1)) + ((540) * mn(p, 3, 2, 1, 1, 3, 2, 1) + (-972) * mn(p, 3, 2, 1, 1, 1, 4, 2)))) + (((324) * mn(p, 3, 2, 1, 1, 1, 4, 0) + ((18) * mn(p, 3, 2, 1, 0, 5, 1, 1) + (-108) * mn(p, 3, 2, 1, 0, 3, 3, 2))) + (((-108) * mn(p, 3, 2, 1, 0, 3, 3, 0) + (162) * mn(p, 3, 2, 1, 0, 1, 5, 3)) + ((-162) * mn(p, 3, 2, 1, 0, 1, 5, 1) + (243) * mn(p, 3, 1, 2, 6, 0, 0, 2)))))))) + (((((((486) * mn(p, 3, 1, 2, 6, 0, 0, 0) + ((-1944) * mn(p, 3, 1, 2, 5, 0, 1, 1) + (-162) * mn(p, 3, 1, 2, 4, 2, 0, 1))) + ((-243) * mn(p, 3, 1, 2, 4, 0, 2, 2) + ((-1458) * mn(p, 3, 1, 2, 4, 0, 2, 0) + (-1944) * mn(p, 3, 1, 2, 3, 2, 1, 0)))) + (((9720) * mn(p, 3, 1, 2, 3, 0, 3, 1) + ((-54) * mn(p, 3, 1, 2, 2, 4, 0, 0) + (3888) * mn(p, 3, 1, 2, 2, 2, 2, 1))) + (((-4617) * mn(p, 3, 1, 2, 2, 0, 4, 2) + (-8262) * mn(p, 3, 1, 2, 2, 0, 4, 0)) + ((324) * mn(p, 3, 1, 2, 1, 4, 1, 1) + (-1944) * mn(p, 3, 1, 2, 1, 2, 3, 2))))) + ((((-648) * mn(p, 3, 1, 2, 1, 2, 3, 0) + ((972) * mn(p, 3, 1, 2, 1, 0, 5, 3) + (3888) * mn(p, 3, 1, 2, 1, 0, 5, 1))) + (((-108) * mn(p, 3, 1, 2, 0, 4, 2, 2) + (-162) * mn(p, 3, 1, 2, 0, 4, 2, 0)) + ((324) * mn(p, 3, 1, 2, 0, 2, 4, 3) + (162) * mn(p, 3, 1, 2, 0, 2, 4, 1)))) + (((-1215) * mn(p, 3, 1, 2, 0, 0, 6, 2) + ((1458) * mn(p, 3, 1, 2, 0, 0, 6, 0) + (-972) * mn(p, 3, 0, 3, 4, 1, 1, 2))) + (((-972) * mn(p, 3, 0, 3, 4, 1, 1, 0) + (-540) * mn(p, 3, 0, 3, 3, 3, 0, 0)) + ((9720) * mn(p, 3, 0, 3, 3, 1, 2, 1) + (1620) * mn(p, 3, 0, 3, 2, 3, 1, 1)))))) + (((((-3888) * mn(p, 3, 0, 3, 2, 1, 3, 2) + ((-13608) * mn(p, 3, 0, 3, 2, 1, 3, 0) + (-972) * mn(p, 3, 0, 3, 1, 3, 2, 2))) + (((-972) * mn(p, 3, 0, 3, 1, 3, 2, 0) + (972) * mn(p, 3, 0, 3, 1, 1, 4, 3)) + ((5832) * mn(p, 3, 0, 3, 1, 1, 4, 1) + (216) * mn(p, 3, 0, 3, 0, 3, 3, 3)))) + (((216) * mn(p, 3, 0, 3, 0, 3, 3, 1) + ((-1944) * mn(p, 3, 0, 3, 0, 1, 5, 2) + (2916) * mn(p, 3, 0, 3, 0, 1, 5, 0))) + (((27) * mn(p, 2, 4, 0, 5, 1, 0, 0) + (-27) * mn(p, 2, 4, 0, 4, 1, 1, 1)) + ((-54) * mn(p, 2, 4, 0, 3, 1, 2, 0) + (-27) * mn(p, 2, 4, 0, 2, 3, 1, 0))))) + ((((108) * mn(p, 2, 4, 0, 2, 1, 3, 1) + ((27) * mn(p, 2, 4, 0, 1, 3, 2, 1) + (-27) * mn(p, 2, 4, 0, 1, 1, 4, 2))) + (((-81) * mn(p, 2, 4, 0, 1, 1, 4, 0) + (-27) * mn(p, 2, 4, 0, 0, 3, 3, 0)) + ((27) * mn(p, 2, 4, 0, 0, 1, 5, 1) + (81) * mn(p, 2, 3, 1, 6, 0, 0, 0)))) + (((27) * mn(p, 2, 3, 1, 4, 2, 0, 1) + ((-81) * mn(p, 2, 3, 1, 4, 0, 2, 2) + (-891) * mn(p, 2, 3, 1, 4, 0, 2, 0))) + (((-540) * mn(p, 2, 3, 1, 3, 2, 1, 0) + (1620) * mn(p, 2, 3, 1, 3, 0, 3, 1)) + ((-27) * mn(p, 2, 3, 1, 2, 4, 0, 0) + (648) * mn(p, 2, 3, 1, 2, 2, 2, 1))))))) + ((((((-729) * mn(p, 2, 3, 1, 2, 0, 4, 2) + ((-729) * mn(p, 2, 3, 1, 2, 0, 4, 0) + (54) * mn(p, 2, 3, 1, 1, 4, 1, 1))) + (((-216) * mn(p, 2, 3, 1, 1, 2, 3, 2) + (-324) * mn(p, 2, 3, 1, 1, 2, 3, 0)) + ((162) * mn(p, 2, 3, 1, 1, 0, 5, 3) + (324) * mn(p, 2, 3, 1, 1, 0, 5, 1)))) + (((-81) * mn(p, 2, 3, 1, 0, 4, 2, 0) + ((189) * mn(p, 2, 3, 1, 0, 2, 4, 1) + (-162) * mn(p, 2, 3, 1, 0, 0, 6, 2))) + (((243) * mn(p, 2, 3, 1, 0, 0, 6, 0) + (-1944) * mn(p, 2, 2, 2, 4, 1, 1, 0)) + ((-162) * mn(p, 2, 2, 2, 3, 3, 0, 0) + (3888) * mn(p, 2, 2, 2, 3, 1, 2, 1))))) + ((((648) * mn(p, 2, 2, 2, 2, 3, 1, 1) + ((-2430) * mn(p, 2, 2, 2, 2, 1, 3, 2) + (-1944) * mn(p, 2, 2, 2, 2, 1, 3, 0))) + (((-486) * mn(p, 2, 2, 2, 1, 3, 2, 2) + (-162) * mn(p, 2, 2, 2, 1, 3, 2, 0)) + ((486) * mn(p, 2, 2, 2, 1, 1, 4, 3) + (1944) * mn(p, 2, 2, 2, 1, 1, 4, 1)))) + (((-54) * mn(p, 2, 2, 2, 0, 5, 1, 0) + ((486) * mn(p, 2, 2, 2, 0, 3, 3, 1) + (-486) * mn(p, 2, 2, 2, 0, 1, 5, 2))) + (((-486) * mn(p, 2, 1, 3, 6, 0, 0, 1) + (972) * mn(p, 2, 1, 3, 5, 0, 1, 0)) + ((81) * mn(p, 2, 1, 3, 4, 2, 0, 2) + (-648) * mn(p, 2, 1, 3, 4, 2, 0, 0)))))) + (((((-243) * mn(p, 2, 1, 3, 4, 0, 2, 3) + ((5832) * mn(p, 2, 1, 3, 4, 0, 2, 1) + (2268) * mn(p, 2, 1, 3, 3, 2, 1, 1))) + (((-3888) * mn(p, 2, 1, 3, 3, 0, 3, 2) + (-13608) * mn(p, 2, 1, 3, 3, 0, 3, 0)) + ((108) * mn(p, 2, 1, 3, 2, 4, 0, 1) + (-2430) * mn(p, 2, 1, 3, 2, 2, 2, 2)))) + (((-1944) * mn(p, 2, 1, 3, 2, 2, 2, 0) + ((2430) * mn(p, 2, 1, 3, 2, 0, 4, 3) + (7290) * mn(p, 2, 1, 3, 2, 0, 4, 1))) + (((-162) * mn(p, 2, 1, 3, 1, 4, 1, 2) + (-324) * mn(p, 2, 1, 3, 1, 4, 1, 0)) + ((648) * mn(p, 2, 1, 3, 1, 2, 3, 3) + (2916) * mn(p, 2, 1, 3, 1, 2, 3, 1))))) + ((((-486) * mn(p, 2, 1, 3, 1, 0, 5, 4) + ((-4860) * mn(p, 2, 1, 3, 1, 0, 5, 2) + (8748) * mn(p, 2, 1, 3, 1, 0, 5, 0))) + (((378) * mn(p, 2, 1, 3, 0, 4, 2, 1) + (-891) * mn(p, 2, 1, 3, 0, 2, 4, 2)) + ((1215) * mn(p, 2, 1, 3, 0, 0, 6, 3) + (-2916) * mn(p, 2, 1, 3, 0, 0, 6, 1)))) + (((-243) * mn(p, 2, 0, 4, 5, 1, 0, 2) + ((-243) * mn(p, 2, 0, 4, 5, 1, 0, 0) + (243) * mn(p, 2, 0, 4, 4, 1, 1, 3))) + (((3888) * mn(p, 2, 0, 4, 4, 1, 1, 1) + (405) * mn(p, 2, 0, 4, 3, 3, 0, 1)) + ((-4617) * mn(p, 2, 0, 4, 3, 1, 2, 2) + (-8262) * mn(p, 2, 0, 4, 3, 1, 2, 0))))))))) + ((((((((-729) * mn(p, 2, 0, 4, 2, 3, 1, 2) + ((-729) * mn(p, 2, 0, 4, 2, 3, 1, 0) + (2430) * mn(p, 2, 0, 4, 2, 1, 3, 3))) + ((7290) * mn(p, 2, 0, 4, 2, 1, 3, 1) + ((243) * mn(p, 2, 0, 4, 1, 3, 2, 3) + (1458) * mn(p, 2, 0, 4, 1, 3, 2, 1)))) + (((-243) * mn(p, 2, 0, 4, 1, 1, 4, 4) + ((-8019) * mn(p, 2, 0, 4, 1, 1, 4, 2) + (15309) * mn(p, 2, 0, 4, 1, 1, 4, 0))) + (((-567) * mn(p, 2, 0, 4, 0, 3, 3, 2) + (243) * mn(p, 2, 0, 4, 0, 3, 3, 0)) + ((1701) * mn(p, 2, 0, 4, 0, 1, 5, 3) + (-4374) * mn(p, 2, 0, 4, 0, 1, 5, 1))))) + ((((-162) * mn(p, 1, 4, 1, 4, 1, 1, 0) + ((-18) * mn(p, 1, 4, 1, 3, 3, 0, 0) + (324) * mn(p, 1, 4, 1, 3, 1, 2, 1))) + (((54) * mn(p, 1, 4, 1, 2, 3, 1, 1) + (-162) * mn(p, 1, 4, 1, 2, 1, 3, 2)) + ((-324) * mn(p, 1, 4, 1, 2, 1, 3, 0) + (-162) * mn(p, 1, 4, 1, 1, 3, 2, 0)))) + (((324) * mn(p, 1, 4, 1, 1, 1, 4, 1) + ((36) * mn(p, 1, 4, 1, 0, 3, 3, 1) + (-162) * mn(p, 1, 4, 1, 0, 1, 5, 0))) + (((-486) * mn(p, 1, 3, 2, 5, 0, 1, 0) + (-189) * mn(p, 1, 3, 2, 4, 2, 0, 0)) + ((1215) * mn(p, 1, 3, 2, 4, 0, 2, 1) + (540) * mn(p, 1, 3, 2, 3, 2, 1, 1)))))) + (((((-972) * mn(p, 1, 3, 2, 3, 0, 3, 2) + ((-972) * mn(p, 1, 3, 2, 3, 0, 3, 0) + (27) * mn(p, 1, 3, 2, 2, 4, 0, 1))) + (((-486) * mn(p, 1, 3, 2, 2, 2, 2, 2) + (-162) * mn(p, 1, 3, 2, 2, 2, 2, 0)) + ((243) * mn(p, 1, 3, 2, 2, 0, 4, 3) + (1458) * mn(p, 1, 3, 2, 2, 0, 4, 1)))) + (((-162) * mn(p, 1, 3, 2, 1, 4, 1, 0) + ((864) * mn(p, 1, 3, 2, 1, 2, 3, 1) + (-486) * mn(p, 1, 3, 2, 1, 0, 5, 2))) + (((-486) * mn(p, 1, 3, 2, 1, 0, 5, 0) + (3) * mn(p, 1, 3, 2, 0, 6, 0, 0)) + ((54) * mn(p, 1, 3, 2, 0, 4, 2, 1) + (135) * mn(p, 1, 3, 2, 0, 2, 4, 2))))) + ((((-1053) * mn(p, 1, 3, 2, 0, 2, 4, 0) + ((243) * mn(p, 1, 3, 2, 0, 0, 6, 1) + (-324) * mn(p, 1, 2, 3, 5, 1, 0, 0))) + (((1458) * mn(p, 1, 2, 3, 4, 1, 1, 1) + (108) * mn(p, 1, 2, 3, 3, 3, 0, 1)) + ((-1944) * mn(p, 1, 2, 3, 3, 1, 2, 2) + (-648) * mn(p, 1, 2, 3, 3, 1, 2, 0)))) + (((-216) * mn(p, 1, 2, 3, 2, 3, 1, 2) + ((-324) * mn(p, 1, 2, 3, 2, 3, 1, 0) + (648) * mn(p, 1, 2, 3, 2, 1, 3, 3))) + (((2916) * mn(p, 1, 2, 3, 2, 1, 3, 1) + (864) * mn(p, 1, 2, 3, 1, 3, 2, 1)) + ((-972) * mn(p, 1, 2, 3, 1, 1, 4, 2) + (-2916) * mn(p, 1, 2, 3, 1, 1, 4, 0))))))) + ((((((18) * mn(p, 1, 2, 3, 0, 5, 1, 1) + ((216) * mn(p, 1, 2, 3, 0, 3, 3, 2) + (-1620) * mn(p, 1, 2, 3, 0, 3, 3, 0))) + (((-162) * mn(p, 1, 2, 3, 0, 1, 5, 3) + (1458) * mn(p, 1, 2, 3, 0, 1, 5, 1)) + ((243) * mn(p, 1, 1, 4, 6, 0, 0, 0) + (486) * mn(p, 1, 1, 4, 5, 0, 1, 1)))) + (((243) * mn(p, 1, 1, 4, 4, 2, 0, 1) + ((-729) * mn(p, 1, 1, 4, 4, 0, 2, 2) + (-5589) * mn(p, 1, 1, 4, 4, 0, 2, 0))) + (((-972) * mn(p, 1, 1, 4, 3, 2, 1, 2) + (324) * mn(p, 1, 1, 4, 3, 2, 1, 0)) + ((972) * mn(p, 1, 1, 4, 3, 0, 3, 3) + (5832) * mn(p, 1, 1, 4, 3, 0, 3, 1))))) + ((((-27) * mn(p, 1, 1, 4, 2, 4, 0, 2) + ((-81) * mn(p, 1, 1, 4, 2, 4, 0, 0) + (486) * mn(p, 1, 1, 4, 2, 2, 2, 3))) + (((1944) * mn(p, 1, 1, 4, 2, 2, 2, 1) + (-243) * mn(p, 1, 1, 4, 2, 0, 4, 4)) + ((-8019) * mn(p, 1, 1, 4, 2, 0, 4, 2) + (15309) * mn(p, 1, 1, 4, 2, 0, 4, 0)))) + (((324) * mn(p, 1, 1, 4, 1, 4, 1, 1) + ((-972) * mn(p, 1, 1, 4, 1, 2, 3, 2) + (-2916) * mn(p, 1, 1, 4, 1, 2, 3, 0))) + (((3888) * mn(p, 1, 1, 4, 1, 0, 5, 3) + (-10206) * mn(p, 1, 1, 4, 1, 0, 5, 1)) + ((27) * mn(p, 1, 1, 4, 0, 4, 2, 2) + (-567) * mn(p, 1, 1, 4, 0, 4, 2, 0)))))) + (((((-162) * mn(p, 1, 1, 4, 0, 2, 4, 3) + ((1701) * mn(p, 1, 1, 4, 0, 2, 4, 1) + (-729) * mn(p, 1, 1, 4, 0, 0, 6, 4))) + (((2916) * mn(p, 1, 1, 4, 0, 0, 6, 2) + (-2187) * mn(p, 1, 1, 4, 0, 0, 6, 0)) + ((486) * mn(p, 1, 0, 5, 5, 1, 0, 1) + (-972) * mn(p, 1, 0, 5, 4, 1, 1, 2)))) + (((-2430) * mn(p, 1, 0, 5, 4, 1, 1, 0) + ((-162) * mn(p, 1, 0, 5, 3, 3, 0, 2) + (162) * mn(p, 1, 0, 5, 3, 3, 0, 0))) + (((972) * mn(p, 1, 0, 5, 3, 1, 2, 3) + (3888) * mn(p, 1, 0, 5, 3, 1, 2, 1)) + ((162) * mn(p, 1, 0, 5, 2, 3, 1, 3) + (324) * mn(p, 1, 0, 5, 2, 3, 1, 1))))) + ((((-486) * mn(p, 1, 0, 5, 2, 1, 3, 4) + ((-4860) * mn(p, 1, 0, 5, 2, 1, 3, 2) + (8748) * mn(p, 1, 0, 5, 2, 1, 3, 0))) + (((-486) * mn(p, 1, 0, 5, 1, 3, 2, 2) + (-486) * mn(p, 1, 0, 5, 1, 3, 2, 0)) + ((3888) * mn(p, 1, 0, 5, 1, 1, 4, 3) + (-10206) * mn(p, 1, 0, 5, 1, 1, 4, 1)))) + (((486) * mn(p, 1, 0, 5, 0, 3, 3, 1) + ((-972) * mn(p, 1, 0, 5, 0, 1, 5, 4) + (4374) * mn(p, 1, 0, 5, 0, 1, 5, 2))) + (((-4374) * mn(p, 1, 0, 5, 0, 1, 5, 0) + (-1) * mn(p, 0, 6, 0, 3, 3, 0, 0)) + ((3) * mn(p, 0, 6, 0, 1, 3, 2, 0) + (1) * mn(p, 0, 6, 0, 0, 5, 1, 0)))))))) + (((((((-1) * mn(p, 0, 6, 0, 0, 3, 3, 1) + ((-9) * mn(p, 0, 5, 1, 4, 2, 0, 0) + (18) * mn(p, 0, 5, 1, 3, 2, 1, 1))) + ((-54) * mn(p, 0, 5, 1, 2, 2, 2, 0) + ((18) * mn(p, 0, 5, 1, 1, 2, 3, 1) + (1) * mn(p, 0, 5, 1, 0, 6, 0, 0)))) + (((-9) * mn(p, 0, 5, 1, 0, 2, 4, 2) + ((27) * mn(p, 0, 5, 1, 0, 2, 4, 0) + (-27) * mn(p, 0, 4, 2, 5, 1, 0, 0))) + (((108) * mn(p, 0, 4, 2, 4, 1, 1, 1) + (9) * mn(p, 0, 4, 2, 3, 3, 0, 1)) + ((-108) * mn(p, 0, 4, 2, 3, 1, 2, 2) + (-162) * mn(p, 0, 4, 2, 3, 1, 2, 0))))) + ((((-81) * mn(p, 0, 4, 2, 2, 3, 1, 0) + ((378) * mn(p, 0, 4, 2, 2, 1, 3, 1) + (54) * mn(p, 0, 4, 2, 1, 3, 2, 1))) + (((27) * mn(p, 0, 4, 2, 1, 1, 4, 2) + (-567) * mn(p, 0, 4, 2, 1, 1, 4, 0)) + ((-45) * mn(p, 0, 4, 2, 0, 3, 3, 2) + (135) * mn(p, 0, 4, 2, 0, 3, 3, 0)))) + (((-27) * mn(p, 0, 4, 2, 0, 1, 5, 3) + ((162) * mn(p, 0, 4, 2, 0, 1, 5, 1) + (-27) * mn(p, 0, 3, 3, 6, 0, 0, 0))) + (((162) * mn(p, 0, 3, 3, 5, 0, 1, 1) + (54) * mn(p, 0, 3, 3, 4, 2, 0, 1)) + ((-324) * mn(p, 0, 3, 3, 4, 0, 2, 2) + (81) * mn(p, 0, 3, 3, 4, 0, 2, 0)))))) + (((((-108) * mn(p, 0, 3, 3, 3, 2, 1, 2) + ((-108) * mn(p, 0, 3, 3, 3, 2, 1, 0) + (216) * mn(p, 0, 3, 3, 3, 0, 3, 3))) + (((216) * mn(p, 0, 3, 3, 3, 0, 3, 1) + (-27) * mn(p, 0, 3, 3, 2, 4, 0, 0)) + ((486) * mn(p, 0, 3, 3, 2, 2, 2, 1) + (-567) * mn(p, 0, 3, 3, 2, 0, 4, 2)))) + (((243) * mn(p, 0, 3, 3, 2, 0, 4, 0) + ((36) * mn(p, 0, 3, 3, 1, 4, 1, 1) + (216) * mn(p, 0, 3, 3, 1, 2, 3, 2))) + (((-1620) * mn(p, 0, 3, 3, 1, 2, 3, 0) + (486) * mn(p, 0, 3, 3, 1, 0, 5, 1)) + ((-1) * mn(p, 0, 3, 3, 0, 6, 0, 1) + (-45) * mn(p, 0, 3, 3, 0, 4, 2, 2))))) + ((((135) * mn(p, 0, 3, 3, 0, 4, 2, 0) + ((-135) * mn(p, 0, 3, 3, 0, 2, 4, 3) + (648) * mn(p, 0, 3, 3, 0, 2, 4, 1))) + (((-27) * mn(p, 0, 3, 3, 0, 0, 6, 4) + (243) * mn(p, 0, 3, 3, 0, 0, 6, 2)) + ((-729) * mn(p, 0, 3, 3, 0, 0, 6, 0) + (81) * mn(p, 0, 2, 4, 5, 1, 0, 1)))) + (((-324) * mn(p, 0, 2, 4, 4, 1, 1, 2) + ((162) * mn(p, 0, 2, 4, 4, 1, 1, 0) + (-27) * mn(p, 0, 2, 4, 3, 3, 0, 2))) + (((27) * mn(p, 0, 2, 4, 3, 3, 0, 0) + (324) * mn(p, 0, 2, 4, 3, 1, 2, 3)) + ((162) * mn(p, 0, 2, 4, 3, 1, 2, 1) + (189) * mn(p, 0, 2, 4, 2, 3, 1, 1))))))) + ((((((-891) * mn(p, 0, 2, 4, 2, 1, 3, 2) + ((135) * mn(p, 0, 2, 4, 1, 3, 2, 2) + (-1053) * mn(p, 0, 2, 4, 1, 3, 2, 0))) + (((-162) * mn(p, 0, 2, 4, 1, 1, 4, 3) + (1701) * mn(p, 0, 2, 4, 1, 1, 4, 1)) + ((-9) * mn(p, 0, 2, 4, 0, 5, 1, 2) + (27) * mn(p, 0, 2, 4, 0, 5, 1, 0)))) + (((-135) * mn(p, 0, 2, 4, 0, 3, 3, 3) + ((648) * mn(p, 0, 2, 4, 0, 3, 3, 1) + (243) * mn(p, 0, 2, 4, 0, 1, 5, 2))) + (((-1458) * mn(p, 0, 2, 4, 0, 1, 5, 0) + (-486) * mn(p, 0, 1, 5, 5, 0, 1, 0)) + ((-81) * mn(p, 0, 1, 5, 4, 2, 0, 2) + (162) * mn(p, 0, 1, 5, 4, 2, 0, 0))))) + ((((1215) * mn(p, 0, 1, 5, 4, 0, 2, 1) + ((162) * mn(p, 0, 1, 5, 3, 2, 1, 3) + (-162) * mn(p, 0, 1, 5, 3, 2, 1, 1))) + (((-1944) * mn(p, 0, 1, 5, 3, 0, 3, 2) + (2916) * mn(p, 0, 1, 5, 3, 0, 3, 0)) + ((27) * mn(p, 0, 1, 5, 2, 4, 0, 1) + (-486) * mn(p, 0, 1, 5, 2, 2, 2, 2)))) + (((1701) * mn(p, 0, 1, 5, 2, 0, 4, 3) + ((-4374) * mn(p, 0, 1, 5, 2, 0, 4, 1) + (-162) * mn(p, 0, 1, 5, 1, 4, 1, 0))) + (((-162) * mn(p, 0, 1, 5, 1, 2, 3, 3) + (1458) * mn(p, 0, 1, 5, 1, 2, 3, 1)) + ((-972) * mn(p, 0, 1, 5, 1, 0, 5, 4) + (4374) * mn(p, 0, 1, 5, 1, 0, 5, 2)))))) + (((((-4374) * mn(p, 0, 1, 5, 1, 0, 5, 0) + ((-27) * mn(p, 0, 1, 5, 0, 4, 2, 3) + (162) * mn(p, 0, 1, 5, 0, 4, 2, 1))) + (((243) * mn(p, 0, 1, 5, 0, 2, 4, 2) + (-1458) * mn(p, 0, 1, 5, 0, 2, 4, 0)) + ((243) * mn(p, 0, 1, 5, 0, 0, 6, 5) + (-1458) * mn(p, 0, 1, 5, 0, 0, 6, 3)))) + (((2187) * mn(p, 0, 1, 5, 0, 0, 6, 1) + ((-243) * mn(p, 0, 0, 6, 5, 1, 0, 0) + (729) * mn(p, 0, 0, 6, 4, 1, 1, 1))) + (((27) * mn(p, 0, 0, 6, 3, 3, 0, 3) + (-54) * mn(p, 0, 0, 6, 3, 3, 0, 1)) + ((-1215) * mn(p, 0, 0, 6, 3, 1, 2, 2) + (1458) * mn(p, 0, 0, 6, 3, 1, 2, 0))))) + ((((-162) * mn(p, 0, 0, 6, 2, 3, 1, 2) + ((243) * mn(p, 0, 0, 6, 2, 3, 1, 0) + (1215) * mn(p, 0, 0, 6, 2, 1, 3, 3))) + (((-2916) * mn(p, 0, 0, 6, 2, 1, 3, 1) + (243) * mn(p, 0, 0, 6, 1, 3, 2, 1)) + ((-729) * mn(p, 0, 0, 6, 1, 1, 4, 4) + (2916) * mn(p, 0, 0, 6, 1, 1, 4, 2)))) + (((-2187) * mn(p, 0, 0, 6, 1, 1, 4, 0) + ((-27) * mn(p, 0, 0, 6, 0, 3, 3, 4) + (243) * mn(p, 0, 0, 6, 0, 3, 3, 2))) + (((-729) * mn(p, 0, 0, 6, 0, 3, 3, 0) + (243) * mn(p, 0, 0, 6, 0, 1, 5, 5)) + ((-1458) * mn(p, 0, 0, 6, 0, 1, 5, 3) + (2187) * mn(p, 0, 0, 6, 0, 1, 5, 1)))))))))));
    assert(curve_poly(xx, yy, zz, p.v6) == n12);
}

#[verifier::rlimit(100)]
pub(crate) proof fn lemma_add_curve_identity(x1: int, y1: int, z1: int, x2: int, y2: int, z2: int, b: int)
    ensures
        ({
            let p = Pt { v0: x1, v1: y1, v2: z1, v3: x2, v4: y2, v5: z2, v6: b };
            let r = rcb_add(x1, y1, z1, x2, y2, z2, b);
            curve_poly(r.0, r.1, r.2, b) == acc_cof0(p) * curve_poly(x1, y1, z1, b) + acc_cof1(p) * curve_poly(x2, y2, z2, b)
        }),
{
    let p = Pt { v0: x1, v1: y1, v2: z1, v3: x2, v4: y2, v5: z2, v6: b };
    lemma_vars(p);
    assert(x1 == (1) * mn(p, 1, 0, 0, 0, 0, 0, 0));
    assert(y1 == (1) * mn(p, 0, 1, 0, 0, 0, 0, 0));
    assert(z1 == (1) * mn(p, 0, 0, 1, 0, 0, 0, 0));
    assert(x2 == (1) * mn(p, 0, 0, 0, 1, 0, 0, 0));
    assert(y2 == (1) * mn(p, 0, 0, 0, 0, 1, 0, 0));
    assert(z2 == (1) * mn(p, 0, 0, 0, 0, 0, 1, 0));
    assert(b == (1) * mn(p, 0, 0, 0, 0, 0, 0, 1));
    acc_prod0(p);
    let n0 = y1 * y1;
    assert(n0 == (1) * mn(p, 0, 2, 0, 0, 0, 0, 0));
    acc_prod2(p);
    let n1 = n0 * z1;
    assert(n1 == (1) * mn(p, 0, 2, 1, 0, 0, 0, 0));
    acc_prod4(p);
    let n2 = x1 * x1;
    assert(n2 == (1) * mn(p, 2, 0, 0, 0, 0, 0, 0));
    acc_prod6(p);
    let n3 = n2 * x1;
    assert(n3 == (1) * mn(p, 3, 0, 0, 0, 0, 0, 0));
    acc_prod8(p);
    let n4 = x1 * z1;
    assert(n4 == (1) * mn(p, 1, 0, 1, 0, 0, 0, 0));
    acc_prod10(p);
    let n5 = n4 * z1;
    assert(n5 == (1) * mn(p, 1, 0, 2, 0, 0, 0, 0));
    let n6 = 3 * n5;
    assert(n6 == (3) * mn(p, 1, 0, 2, 0, 0, 0, 0));
    let n7 = n3 - n6;
    assert(n7 == ((1) * mn(p, 3, 0, 0, 0, 0, 0, 0) + (-3) * mn(p, 1, 0, 2, 0, 0, 0, 0)));
    acc_prod12(p);
    let n8 = z1 * z1;
    assert(n8 == (1) * mn(p, 0, 0, 2, 0, 0, 0, 0));
    acc_prod14(p);
    let n9 = n8 * z1;
    assert(n9 == (1) * mn(p, 0, 0, 3, 0, 0, 0, 0));
    acc_prod16(p);
    let n10 = b * n9;
    assert(n10 == (1) * mn(p, 0, 0, 3, 0, 0, 0, 1));
    let n11 = n7 + n10;
    assert(n11 == ((1) * mn(p, 3, 0, 0, 0, 0, 0, 0) + ((-3) * mn(p, 1, 0, 2, 0, 0, 0, 0) + (1) * mn(p, 0, 0, 3, 0, 0, 0, 1))));
    let n12 = n1 - n11;
    assert(n12 == (((-1) * mn(p, 3, 0, 0, 0, 0, 0, 0) + (3) * mn(p, 1, 0, 2, 0, 0, 0, 0)) + ((1) * mn(p, 0, 2, 1, 0, 0, 0, 0) + (-1) * mn(p, 0, 0, 3, 0, 0, 0, 1))));
    acc_prod18(p);
    let n13 = y2 * y2;
    assert(n13 == (1) * mn(p, 0, 0, 0, 0, 2, 0, 0));
    acc_prod20(p);
    let n14 = n13 * z2;
    assert(n14 == (1) * mn(p, 0, 0, 0, 0, 2, 1, 0));
    acc_prod22(p);
    let n15 = x2 * x2;
    assert(n15 == (1) * mn(p, 0, 0, 0, 2, 0, 0, 0));
    acc_prod24(p);
    let n16 = n15 * x2;
    assert(n16 == (1) * mn(p, 0, 0, 0, 3, 0, 0, 0));
    acc_prod26(p);
    let n17 = x2 * z2;
    assert(n17 == (1) * mn(p, 0, 0, 0, 1, 0, 1, 0));
    acc_prod28(p);
    let n18 = n17 * z2;
    assert(n18 == (1) * mn(p, 0, 0, 0, 1, 0, 2, 0));
    let n19 = 3 * n18;
    assert(n19 == (3) * mn(p, 0, 0, 0, 1, 0, 2, 0));
    let n20 = n16 - n19;
    assert(n20 == ((1) * mn(p, 0, 0, 0, 3, 0, 0, 0) + (-3) * mn(p, 0, 0, 0, 1, 0, 2, 0)));
    acc_prod30(p);
    let n21 = z2 * z2;
    assert(n21 == (1) * mn(p, 0, 0, 0, 0, 0, 2, 0));
    acc_prod32(p);
    let n22 = n21 * z2;
    assert(n22 == (1) * mn(p, 0, 0, 0, 0, 0, 3, 0));
    acc_prod34(p);
    let n23 = b * n22;
    assert(n23 == (1) * mn(p, 0, 0, 0, 0, 0, 3, 1));
    let n24 = n20 + n23;
    assert(n24 == ((1) * mn(p, 0, 0, 0, 3, 0, 0, 0) + ((-3) * mn(p, 0, 0, 0, 1, 0, 2, 0) + (1) * mn(p, 0, 0, 0, 0, 0, 3, 1))));
    let n25 = n14 - n24;
    assert(n25 == (((-1) * mn(p, 0, 0, 0, 3, 0, 0, 0) + (3) * mn(p, 0, 0, 0, 1, 0, 2, 0)) + ((1) * mn(p, 0, 0, 0, 0, 2, 1, 0) + (-1) * mn(p, 0, 0, 0, 0, 0, 3, 1))));
    lemma_add_coords_expanded(x1, y1, z1, x2, y2, z2, b);
    lemma_add_curve_expanded(p);
    acc_prod36(p);
    acc_prod42(p);
    let r = rcb_add(x1, y1, z1, x2, y2, z2, b);
    assert(curve_poly(r.0, r.1, r.2, b) == (((((((((243) * mn(p, 6, 0, 0, 5, 1, 0, 0) + ((-486) * mn(p, 6, 0, 0, 4, 1, 1, 1) + (-27) * mn(p, 6, 0, 0, 3, 3, 0, 1))) + ((243) * mn(p, 6, 0, 0, 3, 1, 2, 2) + ((486) * mn(p, 6, 0, 0, 3, 1, 2, 0) + (81) * mn(p, 6, 0, 0, 2, 3, 1, 0)))) + (((-486) * mn(p, 6, 0, 0, 2, 1, 3, 1) + ((243) * mn(p, 6, 0, 0, 1, 1, 4, 0) + (-27) * mn(p, 6, 0, 0, 0, 3, 3, 0))) + (((243) * mn(p, 5, 1, 0, 6, 0, 0, 0) + (-486) * mn(p, 5, 1, 0, 5, 0, 1, 1)) + ((-81) * mn(p, 5, 1, 0, 4, 2, 0, 1) + (243) * mn(p, 5, 1, 0, 4, 0, 2, 2))))) + ((((243) * mn(p, 5, 1, 0, 4, 0, 2, 0) + ((324) * mn(p, 5, 1, 0, 3, 2, 1, 0) + (27) * mn(p, 5, 1, 0, 2, 4, 0, 0))) + (((-243) * mn(p, 5, 1, 0, 2, 0, 4, 2) + (-243) * mn(p, 5, 1, 0, 2, 0, 4, 0)) + ((-324) * mn(p, 5, 1, 0, 1, 2, 3, 0) + (486) * mn(p, 5, 1, 0, 1, 0, 5, 1)))) + (((-27) * mn(p, 5, 1, 0, 0, 4, 2, 0) + ((81) * mn(p, 5, 1, 0, 0, 2, 4, 1) + (-243) * mn(p, 5, 1, 0, 0, 0, 6, 0))) + (((-486) * mn(p, 5, 0, 1, 5, 1, 0, 1) + (486) * mn(p, 5, 0, 1, 4, 1, 1, 2)) + ((1458) * mn(p, 5, 0, 1, 4, 1, 1, 0) + (162) * mn(p, 5, 0, 1, 3, 3, 0, 0)))))) + (((((-1944) * mn(p, 5, 0, 1, 3, 1, 2, 1) + ((972) * mn(p, 5, 0, 1, 2, 1, 3, 0) + (-486) * mn(p, 5, 0, 1, 1, 3, 2, 0))) + (((486) * mn(p, 5, 0, 1, 1, 1, 4, 1) + (162) * mn(p, 5, 0, 1, 0, 3, 3, 1)) + ((-486) * mn(p, 5, 0, 1, 0, 1, 5, 0) + (-81) * mn(p, 4, 2, 0, 5, 1, 0, 1)))) + (((486) * mn(p, 4, 2, 0, 4, 1, 1, 0) + ((27) * mn(p, 4, 2, 0, 3, 3, 0, 0) + (-162) * mn(p, 4, 2, 0, 3, 1, 2, 1))) + (((27) * mn(p, 4, 2, 0, 2, 3, 1, 1) + (81) * mn(p, 4, 2, 0, 2, 1, 3, 2)) + ((-648) * mn(p, 4, 2, 0, 2, 1, 3, 0) + (-189) * mn(p, 4, 2, 0, 1, 3, 2, 0))))) + ((((243) * mn(p, 4, 2, 0, 1, 1, 4, 1) + ((-9) * mn(p, 4, 2, 0, 0, 5, 1, 0) + (54) * mn(p, 4, 2, 0, 0, 3, 3, 1))) + (((-81) * mn(p, 4, 2, 0, 0, 1, 5, 2) + (162) * mn(p, 4, 2, 0, 0, 1, 5, 0)) + ((-486) * mn(p, 4, 1, 1, 6, 0, 0, 1) + (486) * mn(p, 4, 1, 1, 5, 0, 1, 2)))) + (((1458) * mn(p, 4, 1, 1, 5, 0, 1, 0) + ((486) * mn(p, 4, 1, 1, 4, 2, 0, 0) + (-1215) * mn(p, 4, 1, 1, 4, 0, 2, 1))) + (((-162) * mn(p, 4, 1, 1, 3, 2, 1, 1) + (-972) * mn(p, 4, 1, 1, 3, 0, 3, 2)) + ((-972) * mn(p, 4, 1, 1, 3, 0, 3, 0) + (-27) * mn(p, 4, 1, 1, 2, 4, 0, 1))))))) + ((((((-1944) * mn(p, 4, 1, 1, 2, 2, 2, 0) + ((243) * mn(p, 4, 1, 1, 2, 0, 4, 3) + (3888) * mn(p, 4, 1, 1, 2, 0, 4, 1))) + (((-162) * mn(p, 4, 1, 1, 1, 4, 1, 0) + (1458) * mn(p, 4, 1, 1, 1, 2, 3, 1)) + ((-972) * mn(p, 4, 1, 1, 1, 0, 5, 2) + (-2430) * mn(p, 4, 1, 1, 1, 0, 5, 0)))) + (((108) * mn(p, 4, 1, 1, 0, 4, 2, 1) + ((-324) * mn(p, 4, 1, 1, 0, 2, 4, 2) + (162) * mn(p, 4, 1, 1, 0, 2, 4, 0))) + (((729) * mn(p, 4, 1, 1, 0, 0, 6, 1) + (243) * mn(p, 4, 0, 2, 5, 1, 0, 2)) + ((243) * mn(p, 4, 0, 2, 5, 1, 0, 0) + (-1215) * mn(p, 4, 0, 2, 4, 1, 1, 1))))) + ((((-243) * mn(p, 4, 0, 2, 3, 1, 2, 2) + ((-1458) * mn(p, 4, 0, 2, 3, 1, 2, 0) + (-81) * mn(p, 4, 0, 2, 2, 3, 1, 2))) + (((-891) * mn(p, 4, 0, 2, 2, 3, 1, 0) + (-243) * mn(p, 4, 0, 2, 2, 1, 3, 3)) + ((5832) * mn(p, 4, 0, 2, 2, 1, 3, 1) + (1215) * mn(p, 4, 0, 2, 1, 3, 2, 1)))) + (((-729) * mn(p, 4, 0, 2, 1, 1, 4, 2) + ((-5589) * mn(p, 4, 0, 2, 1, 1, 4, 0) + (-324) * mn(p, 4, 0, 2, 0, 3, 3, 2))) + (((81) * mn(p, 4, 0, 2, 0, 3, 3, 0) + (1215) * mn(p, 4, 0, 2, 0, 1, 5, 1)) + ((-27) * mn(p, 3, 3, 0, 6, 0, 0, 1) + (162) * mn(p, 3, 3, 0, 5, 0, 1, 0)))))) + (((((27) * mn(p, 3, 3, 0, 4, 2, 0, 0) + ((-540) * mn(p, 3, 3, 0, 3, 0, 3, 0) + (-162) * mn(p, 3, 3, 0, 2, 2, 2, 0))) + (((405) * mn(p, 3, 3, 0, 2, 0, 4, 1) + (-18) * mn(p, 3, 3, 0, 1, 4, 1, 0)) + ((108) * mn(p, 3, 3, 0, 1, 2, 3, 1) + (-162) * mn(p, 3, 3, 0, 1, 0, 5, 2)))) + (((162) * mn(p, 3, 3, 0, 1, 0, 5, 0) + ((-1) * mn(p, 3, 3, 0, 0, 6, 0, 0) + (9) * mn(p, 3, 3, 0, 0, 4, 2, 1))) + (((-27) * mn(p, 3, 3, 0, 0, 2, 4, 2) + (27) * mn(p, 3, 3, 0, 0, 2, 4, 0)) + ((27) * mn(p, 3, 3, 0, 0, 0, 6, 3) + (-54) * mn(p, 3, 3, 0, 0, 0, 6, 1))))) + ((((324) * mn(p, 3, 2, 1, 5, 1, 0, 0) + ((-162) * mn(p, 3, 2, 1, 4, 1, 1, 1) + (-1944) * mn(p, 3, 2, 1, 3, 1, 2, 0))) + (((-540) * mn(p, 3, 2, 1, 2, 3, 1, 0) + (2268) * mn(p, 3, 2, 1, 2, 1, 3, 1)) + ((540) * mn(p, 3, 2, 1, 1, 3, 2, 1) + (-972) * mn(p, 3, 2, 1, 1, 1, 4, 2)))) + (((324) * mn(p, 3, 2, 1, 1, 1, 4, 0) + ((18) * mn(p, 3, 2, 1, 0, 5, 1, 1) + (-108) * mn(p, 3, 2, 1, 0, 3, 3, 2))) + (((-108) * mn(p, 3, 2, 1, 0, 3, 3, 0) + (162) * mn(p, 3, 2, 1, 0, 1, 5, 3)) + ((-162) * mn(p, 3, 2, 1, 0, 1, 5, 1) + (243) * mn(p, 3, 1, 2, 6, 0, 0, 2)))))))) + (((((((486) * mn(p, 3, 1, 2, 6, 0, 0, 0) + ((-1944) * mn(p, 3, 1, 2, 5, 0, 1, 1) + (-162) * mn(p, 3, 1, 2, 4, 2, 0, 1))) + ((-243) * mn(p, 3, 1, 2, 4, 0, 2, 2) + ((-1458) * mn(p, 3, 1, 2, 4, 0, 2, 0) + (-1944) * mn(p, 3, 1, 2, 3, 2, 1, 0)))) + (((9720) * mn(p, 3, 1, 2, 3, 0, 3, 1) + ((-54) * mn(p, 3, 1, 2, 2, 4, 0, 0) + (3888) * mn(p, 3, 1, 2, 2, 2, 2, 1))) + (((-4617) * mn(p, 3, 1, 2, 2, 0, 4, 2) + (-8262) * mn(p, 3, 1, 2, 2, 0, 4, 0)) + ((324) * mn(p, 3, 1, 2, 1, 4, 1, 1) + (-1944) * mn(p, 3, 1, 2, 1, 2, 3, 2))))) + ((((-648) * mn(p, 3, 1, 2, 1, 2, 3, 0) + ((972) * mn(p, 3, 1, 2, 1, 0, 5, 3) + (3888) * mn(p, 3, 1, 2, 1, 0, 5, 1))) + (((-108) * mn(p, 3, 1, 2, 0, 4, 2, 2) + (-162) * mn(p, 3, 1, 2, 0, 4, 2, 0)) + ((324) * mn(p, 3, 1, 2, 0, 2, 4, 3) + (162) * mn(p, 3, 1, 2, 0, 2, 4, 1)))) + (((-1215) * mn(p, 3, 1, 2, 0, 0, 6, 2) + ((1458) * mn(p, 3, 1, 2, 0, 0, 6, 0) + (-972) * mn(p, 3, 0, 3, 4, 1, 1, 2))) + (((-972) * mn(p, 3, 0, 3, 4, 1, 1, 0) + (-540) * mn(p, 3, 0, 3, 3, 3, 0, 0)) + ((9720) * mn(p, 3, 0, 3, 3, 1, 2, 1) + (1620) * mn(p, 3, 0, 3, 2, 3, 1, 1)))))) + (((((-3888) * mn(p, 3, 0, 3, 2, 1, 3, 2) + ((-13608) * mn(p, 3, 0, 3, 2, 1, 3, 0) + (-972) * mn(p, 3, 0, 3, 1, 3, 2, 2))) + (((-972) * mn(p, 3, 0, 3, 1, 3, 2, 0) + (972) * mn(p, 3, 0, 3, 1, 1, 4, 3)) + ((5832) * mn(p, 3, 0, 3, 1, 1, 4, 1) + (216) * mn(p, 3, 0, 3, 0, 3, 3, 3)))) + (((216) * mn(p, 3, 0, 3, 0, 3, 3, 1) + ((-1944) * mn(p, 3, 0, 3, 0, 1, 5, 2) + (2916) * mn(p, 3, 0, 3, 0, 1, 5, 0))) + (((27) * mn(p, 2, 4, 0, 5, 1, 0, 0) + (-27) * mn(p, 2, 4, 0, 4, 1, 1, 1)) + ((-54) * mn(p, 2, 4, 0, 3, 1, 2, 0) + (-27) * mn(p, 2, 4, 0, 2, 3, 1, 0))))) + ((((108) * mn(p, 2, 4, 0, 2, 1, 3, 1) + ((27) * mn(p, 2, 4, 0, 1, 3, 2, 1) + (-27) * mn(p, 2, 4, 0, 1, 1, 4, 2))) + (((-81) * mn(p, 2, 4, 0, 1, 1, 4, 0) + (-27) * mn(p, 2, 4, 0, 0, 3, 3, 0)) + ((27) * mn(p, 2, 4, 0, 0, 1, 5, 1) + (81) * mn(p, 2, 3, 1, 6, 0, 0, 0)))) + (((27) * mn(p, 2, 3, 1, 4, 2, 0, 1) + ((-81) * mn(p, 2, 3, 1, 4, 0, 2, 2) + (-891) * mn(p, 2, 3, 1, 4, 0, 2, 0))) + (((-540) * mn(p, 2, 3, 1, 3, 2, 1, 0) + (1620) * mn(p, 2, 3, 1, 3, 0, 3, 1)) + ((-27) * mn(p, 2, 3, 1, 2, 4, 0, 0) + (648) * mn(p, 2, 3, 1, 2, 2, 2, 1))))))) + ((((((-729) * mn(p, 2, 3, 1, 2, 0, 4, 2) + ((-729) * mn(p, 2, 3, 1, 2, 0, 4, 0) + (54) * mn(p, 2, 3, 1, 1, 4, 1, 1))) + (((-216) * mn(p, 2, 3, 1, 1, 2, 3, 2) + (-324) * mn(p, 2, 3, 1, 1, 2, 3, 0)) + ((162) * mn(p, 2, 3, 1, 1, 0, 5, 3) + (324) * mn(p, 2, 3, 1, 1, 0, 5, 1)))) + (((-81) * mn(p, 2, 3, 1, 0, 4, 2, 0) + ((189) * mn(p, 2, 3, 1, 0, 2, 4, 1) + (-162) * mn(p, 2, 3, 1, 0, 0, 6, 2))) + (((243) * mn(p, 2, 3, 1, 0, 0, 6, 0) + (-1944) * mn(p, 2, 2, 2, 4, 1, 1, 0)) + ((-162) * mn(p, 2, 2, 2, 3, 3, 0, 0) + (3888) * mn(p, 2, 2, 2, 3, 1, 2, 1))))) + ((((648) * mn(p, 2, 2, 2, 2, 3, 1, 1) + ((-2430) * mn(p, 2, 2, 2, 2, 1, 3, 2) + (-1944) * mn(p, 2, 2, 2, 2, 1, 3, 0))) + (((-486) * mn(p, 2, 2, 2, 1, 3, 2, 2) + (-162) * mn(p, 2, 2, 2, 1, 3, 2, 0)) + ((486) * mn(p, 2, 2, 2, 1, 1, 4, 3) + (1944) * mn(p, 2, 2, 2, 1, 1, 4, 1)))) + (((-54) * mn(p, 2, 2, 2, 0, 5, 1, 0) + ((486) * mn(p, 2, 2, 2, 0, 3, 3, 1) + (-486) * mn(p, 2, 2, 2, 0, 1, 5, 2))) + (((-486) * mn(p, 2, 1, 3, 6, 0, 0, 1) + (972) * mn(p, 2, 1, 3, 5, 0, 1, 0)) + ((81) * mn(p, 2, 1, 3, 4, 2, 0, 2) + (-648) * mn(p, 2, 1, 3, 4, 2, 0, 0)))))) + (((((-243) * mn(p, 2, 1, 3, 4, 0, 2, 3) + ((5832) * mn(p, 2, 1, 3, 4, 0, 2, 1) + (2268) * mn(p, 2, 1, 3, 3, 2, 1, 1))) + (((-3888) * mn(p, 2, 1, 3, 3, 0, 3, 2) + (-13608) * mn(p, 2, 1, 3, 3, 0, 3, 0)) + ((108) * mn(p, 2, 1, 3, 2, 4, 0, 1) + (-2430) * mn(p, 2, 1, 3, 2, 2, 2, 2)))) + (((-1944) * mn(p, 2, 1, 3, 2, 2, 2, 0) + ((2430) * mn(p, 2, 1, 3, 2, 0, 4, 3) + (7290) * mn(p, 2, 1, 3, 2, 0, 4, 1))) + (((-162) * mn(p, 2, 1, 3, 1, 4, 1, 2) + (-324) * mn(p, 2, 1, 3, 1, 4, 1, 0)) + ((648) * mn(p, 2, 1, 3, 1, 2, 3, 3) + (2916) * mn(p, 2, 1, 3, 1, 2, 3, 1))))) + ((((-486) * mn(p, 2, 1, 3, 1, 0, 5, 4) + ((-4860) * mn(p, 2, 1, 3, 1, 0, 5, 2) + (8748) * mn(p, 2, 1, 3, 1, 0, 5, 0))) + (((378) * mn(p, 2, 1, 3, 0, 4, 2, 1) + (-891) * mn(p, 2, 1, 3, 0, 2, 4, 2)) + ((1215) * mn(p, 2, 1, 3, 0, 0, 6, 3) + (-2916) * mn(p, 2, 1, 3, 0, 0, 6, 1)))) + (((-243) * mn(p, 2, 0, 4, 5, 1, 0, 2) + ((-243) * mn(p, 2, 0, 4, 5, 1, 0, 0) + (243) * mn(p, 2, 0, 4, 4, 1, 1, 3))) + (((3888) * mn(p, 2, 0, 4, 4, 1, 1, 1) + (405) * mn(p, 2, 0, 4, 3, 3, 0, 1)) + ((-4617) * mn(p, 2, 0, 4, 3, 1, 2, 2) + (-8262) * mn(p, 2, 0, 4, 3, 1, 2, 0))))))))) + ((((((((-729) * mn(p, 2, 0, 4, 2, 3, 1, 2) + ((-729) * mn(p, 2, 0, 4, 2, 3, 1, 0) + (2430) * mn(p, 2, 0, 4, 2, 1, 3, 3))) + ((7290) * mn(p, 2, 0, 4, 2, 1, 3, 1) + ((243) * mn(p, 2, 0, 4, 1, 3, 2, 3) + (1458) * mn(p, 2, 0, 4, 1, 3, 2, 1)))) + (((-243) * mn(p, 2, 0, 4, 1, 1, 4, 4) + ((-8019) * mn(p, 2, 0, 4, 1, 1, 4, 2) + (15309) * mn(p, 2, 0, 4, 1, 1, 4, 0))) + (((-567) * mn(p, 2, 0, 4, 0, 3, 3, 2) + (243) * mn(p, 2, 0, 4, 0, 3, 3, 0)) + ((1701) * mn(p, 2, 0, 4, 0, 1, 5, 3) + (-4374) * mn(p, 2, 0, 4, 0, 1, 5, 1))))) + ((((-162) * mn(p, 1, 4, 1, 4, 1, 1, 0) + ((-18) * mn(p, 1, 4, 1, 3, 3, 0, 0) + (324) * mn(p, 1, 4, 1, 3, 1, 2, 1))) + (((54) * mn(p, 1, 4, 1, 2, 3, 1, 1) + (-162) * mn(p, 1, 4, 1, 2, 1, 3, 2)) + ((-324) * mn(p, 1, 4, 1, 2, 1, 3, 0) + (-162) * mn(p, 1, 4, 1, 1, 3, 2, 0)))) + (((324) * mn(p, 1, 4, 1, 1, 1, 4, 1) + ((36) * mn(p, 1, 4, 1, 0, 3, 3, 1) + (-162) * mn(p, 1, 4, 1, 0, 1, 5, 0))) + (((-486) * mn(p, 1, 3, 2, 5, 0, 1, 0) + (-189) * mn(p, 1, 3, 2, 4, 2, 0, 0)) + ((1215) * mn(p, 1, 3, 2, 4, 0, 2, 1) + (540) * mn(p, 1, 3, 2, 3, 2, 1, 1)))))) + (((((-972) * mn(p, 1, 3, 2, 3, 0, 3, 2) + ((-972) * mn(p, 1, 3, 2, 3, 0, 3, 0) + (27) * mn(p, 1, 3, 2, 2, 4, 0, 1))) + (((-486) * mn(p, 1, 3, 2, 2, 2, 2, 2) + (-162) * mn(p, 1, 3, 2, 2, 2, 2, 0)) + ((243) * mn(p, 1, 3, 2, 2, 0, 4, 3) + (1458) * mn(p, 1, 3, 2, 2, 0, 4, 1)))) + (((-162) * mn(p, 1, 3, 2, 1, 4, 1, 0) + ((864) * mn(p, 1, 3, 2, 1, 2, 3, 1) + (-486) * mn(p, 1, 3, 2, 1, 0, 5, 2))) + (((-486) * mn(p, 1, 3, 2, 1, 0, 5, 0) + (3) * mn(p, 1, 3, 2, 0, 6, 0, 0)) + ((54) * mn(p, 1, 3, 2, 0, 4, 2, 1) + (135) * mn(p, 1, 3, 2, 0, 2, 4, 2))))) + ((((-1053) * mn(p, 1, 3, 2, 0, 2, 4, 0) + ((243) * mn(p, 1, 3, 2, 0, 0, 6, 1) + (-324) * mn(p, 1, 2, 3, 5, 1, 0, 0))) + (((1458) * mn(p, 1, 2, 3, 4, 1, 1, 1) + (108) * mn(p, 1, 2, 3, 3, 3, 0, 1)) + ((-1944) * mn(p, 1, 2, 3, 3, 1, 2, 2) + (-648) * mn(p, 1, 2, 3, 3, 1, 2, 0)))) + (((-216) * mn(p, 1, 2, 3, 2, 3, 1, 2) + ((-324) * mn(p, 1, 2, 3, 2, 3, 1, 0) + (648) * mn(p, 1, 2, 3, 2, 1, 3, 3))) + (((2916) * mn(p, 1, 2, 3, 2, 1, 3, 1) + (864) * mn(p, 1, 2, 3, 1, 3, 2, 1)) + ((-972) * mn(p, 1, 2, 3, 1, 1, 4, 2) + (-2916) * mn(p, 1, 2, 3, 1, 1, 4, 0))))))) + ((((((18) * mn(p, 1, 2, 3, 0, 5, 1, 1) + ((216) * mn(p, 1, 2, 3, 0, 3, 3, 2) + (-1620) * mn(p, 1, 2, 3, 0, 3, 3, 0))) + (((-162) * mn(p, 1, 2, 3, 0, 1, 5, 3) + (1458) * mn(p, 1, 2, 3, 0, 1, 5, 1)) + ((243) * mn(p, 1, 1, 4, 6, 0, 0, 0) + (486) * mn(p, 1, 1, 4, 5, 0, 1, 1)))) + (((243) * mn(p, 1, 1, 4, 4, 2, 0, 1) + ((-729) * mn(p, 1, 1, 4, 4, 0, 2, 2) + (-5589) * mn(p, 1, 1, 4, 4, 0, 2, 0))) + (((-972) * mn(p, 1, 1, 4, 3, 2, 1, 2) + (324) * mn(p, 1, 1, 4, 3, 2, 1, 0)) + ((972) * mn(p, 1, 1, 4, 3, 0, 3, 3) + (5832) * mn(p, 1, 1, 4, 3, 0, 3, 1))))) + ((((-27) * mn(p, 1, 1, 4, 2, 4, 0, 2) + ((-81) * mn(p, 1, 1, 4, 2, 4, 0, 0) + (486) * mn(p, 1, 1, 4, 2, 2, 2, 3))) + (((1944) * mn(p, 1, 1, 4, 2, 2, 2, 1) + (-243) * mn(p, 1, 1, 4, 2, 0, 4, 4)) + ((-8019) * mn(p, 1, 1, 4, 2, 0, 4, 2) + (15309) * mn(p, 1, 1, 4, 2, 0, 4, 0)))) + (((324) * mn(p, 1, 1, 4, 1, 4, 1, 1) + ((-972) * mn(p, 1, 1, 4, 1, 2, 3, 2) + (-2916) * mn(p, 1, 1, 4, 1, 2, 3, 0))) + (((3888) * mn(p, 1, 1, 4, 1, 0, 5, 3) + (-10206) * mn(p, 1, 1, 4, 1, 0, 5, 1)) + ((27) * mn(p, 1, 1, 4, 0, 4, 2, 2) + (-567) * mn(p, 1, 1, 4, 0, 4, 2, 0)))))) + (((((-162) * mn(p, 1, 1, 4, 0, 2, 4, 3) + ((1701) * mn(p, 1, 1, 4, 0, 2, 4, 1) + (-729) * mn(p, 1, 1, 4, 0, 0, 6, 4))) + (((2916) * mn(p, 1, 1, 4, 0, 0, 6, 2) + (-2187) * mn(p, 1, 1, 4, 0, 0, 6, 0)) + ((486) * mn(p, 1, 0, 5, 5, 1, 0, 1) + (-972) * mn(p, 1, 0, 5, 4, 1, 1, 2)))) + (((-2430) * mn(p, 1, 0, 5, 4, 1, 1, 0) + ((-162) * mn(p, 1, 0, 5, 3, 3, 0, 2) + (162) * mn(p, 1, 0, 5, 3, 3, 0, 0))) + (((972) * mn(p, 1, 0, 5, 3, 1, 2, 3) + (3888) * mn(p, 1, 0, 5, 3, 1, 2, 1)) + ((162) * mn(p, 1, 0, 5, 2, 3, 1, 3) + (324) * mn(p, 1, 0, 5, 2, 3, 1, 1))))) + ((((-486) * mn(p, 1, 0, 5, 2, 1, 3, 4) + ((-4860) * mn(p, 1, 0, 5, 2, 1, 3, 2) + (8748) * mn(p, 1, 0, 5, 2, 1, 3, 0))) + (((-486) * mn(p, 1, 0, 5, 1, 3, 2, 2) + (-486) * mn(p, 1, 0, 5, 1, 3, 2, 0)) + ((3888) * mn(p, 1, 0, 5, 1, 1, 4, 3) + (-10206) * mn(p, 1, 0, 5, 1, 1, 4, 1)))) + (((486) * mn(p, 1, 0, 5, 0, 3, 3, 1) + ((-972) * mn(p, 1, 0, 5, 0, 1, 5, 4) + (4374) * mn(p, 1, 0, 5, 0, 1, 5, 2))) + (((-4374) * mn(p, 1, 0, 5, 0, 1, 5, 0) + (-1) * mn(p, 0, 6, 0, 3, 3, 0, 0)) + ((3) * mn(p, 0, 6, 0, 1, 3, 2, 0) + (1) * mn(p, 0, 6, 0, 0, 5, 1, 0)))))))) + (((((((-1) * mn(p, 0, 6, 0, 0, 3, 3, 1) + ((-9) * mn(p, 0, 5, 1, 4, 2, 0, 0) + (18) * mn(p, 0, 5, 1, 3, 2, 1, 1))) + ((-54) * mn(p, 0, 5, 1, 2, 2, 2, 0) + ((18) * mn(p, 0, 5, 1, 1, 2, 3, 1) + (1) * mn(p, 0, 5, 1, 0, 6, 0, 0)))) + (((-9) * mn(p, 0, 5, 1, 0, 2, 4, 2) + ((27) * mn(p, 0, 5, 1, 0, 2, 4, 0) + (-27) * mn(p, 0, 4, 2, 5, 1, 0, 0))) + (((108) * mn(p, 0, 4, 2, 4, 1, 1, 1) + (9) * mn(p, 0, 4, 2, 3, 3, 0, 1)) + ((-108) * mn(p, 0, 4, 2, 3, 1, 2, 2) + (-162) * mn(p, 0, 4, 2, 3, 1, 2, 0))))) + ((((-81) * mn(p, 0, 4, 2, 2, 3, 1, 0) + ((378) * mn(p, 0, 4, 2, 2, 1, 3, 1) + (54) * mn(p, 0, 4, 2, 1, 3, 2, 1))) + (((27) * mn(p, 0, 4, 2, 1, 1, 4, 2) + (-567) * mn(p, 0, 4, 2, 1, 1, 4, 0)) + ((-45) * mn(p, 0, 4, 2, 0, 3, 3, 2) + (135) * mn(p, 0, 4, 2, 0, 3, 3, 0)))) + (((-27) * mn(p, 0, 4, 2, 0, 1, 5, 3) + ((162) * mn(p, 0, 4, 2, 0, 1, 5, 1) + (-27) * mn(p, 0, 3, 3, 6, 0, 0, 0))) + (((162) * mn(p, 0, 3, 3, 5, 0, 1, 1) + (54) * mn(p, 0, 3, 3, 4, 2, 0, 1)) + ((-324) * mn(p, 0, 3, 3, 4, 0, 2, 2) + (81) * mn(p, 0, 3, 3, 4, 0, 2, 0)))))) + (((((-108) * mn(p, 0, 3, 3, 3, 2, 1, 2) + ((-108) * mn(p, 0, 3, 3, 3, 2, 1, 0) + (216) * mn(p, 0, 3, 3, 3, 0, 3, 3))) + (((216) * mn(p, 0, 3, 3, 3, 0, 3, 1) + (-27) * mn(p, 0, 3, 3, 2, 4, 0, 0)) + ((486) * mn(p, 0, 3, 3, 2, 2, 2, 1) + (-567) * mn(p, 0, 3, 3, 2, 0, 4, 2)))) + (((243) * mn(p, 0, 3, 3, 2, 0, 4, 0) + ((36) * mn(p, 0, 3, 3, 1, 4, 1, 1) + (216) * mn(p, 0, 3, 3, 1, 2, 3, 2))) + (((-1620) * mn(p, 0, 3, 3, 1, 2, 3, 0) + (486) * mn(p, 0, 3, 3, 1, 0, 5, 1)) + ((-1) * mn(p, 0, 3, 3, 0, 6, 0, 1) + (-45) * mn(p, 0, 3, 3, 0, 4, 2, 2))))) + ((((135) * mn(p, 0, 3, 3, 0, 4, 2, 0) + ((-135) * mn(p, 0, 3, 3, 0, 2, 4, 3) + (648) * mn(p, 0, 3, 3, 0, 2, 4, 1))) + (((-27) * mn(p, 0, 3, 3, 0, 0, 6, 4) + (243) * mn(p, 0, 3, 3, 0, 0, 6, 2)) + ((-729) * mn(p, 0, 3, 3, 0, 0, 6, 0) + (81) * mn(p, 0, 2, 4, 5, 1, 0, 1)))) + (((-324) * mn(p, 0, 2, 4, 4, 1, 1, 2) + ((162) * mn(p, 0, 2, 4, 4, 1, 1, 0) + (-27) * mn(p, 0, 2, 4, 3, 3, 0, 2))) + (((27) * mn(p, 0, 2, 4, 3, 3, 0, 0) + (324) * mn(p, 0, 2, 4, 3, 1, 2, 3)) + ((162) * mn(p, 0, 2, 4, 3, 1, 2, 1) + (189) * mn(p, 0, 2, 4, 2, 3, 1, 1))))))) + ((((((-891) * mn(p, 0, 2, 4, 2, 1, 3, 2) + ((135) * mn(p, 0, 2, 4, 1, 3, 2, 2) + (-1053) * mn(p, 0, 2, 4, 1, 3, 2, 0))) + (((-162) * mn(p, 0, 2, 4, 1, 1, 4, 3) + (1701) * mn(p, 0, 2, 4, 1, 1, 4, 1)) + ((-9) * mn(p, 0, 2, 4, 0, 5, 1, 2) + (27) * mn(p, 0, 2, 4, 0, 5, 1, 0)))) + (((-135) * mn(p, 0, 2, 4, 0, 3, 3, 3) + ((648) * mn(p, 0, 2, 4, 0, 3, 3, 1) + (243) * mn(p, 0, 2, 4, 0, 1, 5, 2))) + (((-1458) * mn(p, 0, 2, 4, 0, 1, 5, 0) + (-486) * mn(p, 0, 1, 5, 5, 0, 1, 0)) + ((-81) * mn(p, 0, 1, 5, 4, 2, 0, 2) + (162) * mn(p, 0, 1, 5, 4, 2, 0, 0))))) + ((((1215) * mn(p, 0, 1, 5, 4, 0, 2, 1) + ((162) * mn(p, 0, 1, 5, 3, 2, 1, 3) + (-162) * mn(p, 0, 1, 5, 3, 2, 1, 1))) + (((-1944) * mn(p, 0, 1, 5, 3, 0, 3, 2) + (2916) * mn(p, 0, 1, 5, 3, 0, 3, 0)) + ((27) * mn(p, 0, 1, 5, 2, 4, 0, 1) + (-486) * mn(p, 0, 1, 5, 2, 2, 2, 2)))) + (((1701) * mn(p, 0, 1, 5, 2, 0, 4, 3) + ((-4374) * mn(p, 0, 1, 5, 2, 0, 4, 1) + (-162) * mn(p, 0, 1, 5, 1, 4, 1, 0))) + (((-162) * mn(p, 0, 1, 5, 1, 2, 3, 3) + (1458) * mn(p, 0, 1, 5, 1, 2, 3, 1)) + ((-972) * mn(p, 0, 1, 5, 1, 0, 5, 4) + (4374) * mn(p, 0, 1, 5, 1, 0, 5, 2)))))) + (((((-4374) * mn(p, 0, 1, 5, 1, 0, 5, 0) + ((-27) * mn(p, 0, 1, 5, 0, 4, 2, 3) + (162) * mn(p, 0, 1, 5, 0, 4, 2, 1))) + (((243) * mn(p, 0, 1, 5, 0, 2, 4, 2) + (-1458) * mn(p, 0, 1, 5, 0, 2, 4, 0)) + ((243) * mn(p, 0, 1, 5, 0, 0, 6, 5) + (-1458) * mn(p, 0, 1, 5, 0, 0, 6, 3)))) + (((2187) * mn(p, 0, 1, 5, 0, 0, 6, 1) + ((-243) * mn(p, 0, 0, 6, 5, 1, 0, 0) + (729) * mn(p, 0, 0, 6, 4, 1, 1, 1))) + (((27) * mn(p, 0, 0, 6, 3, 3, 0, 3) + (-54) * mn(p, 0, 0, 6, 3, 3, 0, 1)) + ((-1215) * mn(p, 0, 0, 6, 3, 1, 2, 2) + (1458) * mn(p, 0, 0, 6, 3, 1, 2, 0))))) + ((((-162) * mn(p, 0, 0, 6, 2, 3, 1, 2) + ((243) * mn(p, 0, 0, 6, 2, 3, 1, 0) + (1215) * mn(p, 0, 0, 6, 2, 1, 3, 3))) + (((-2916) * mn(p, 0, 0, 6, 2, 1, 3, 1) + (243) * mn(p, 0, 0, 6, 1, 3, 2, 1)) + ((-729) * mn(p, 0, 0, 6, 1, 1, 4, 4) + (2916) * mn(p, 0, 0, 6, 1, 1, 4, 2)))) + (((-2187) * mn(p, 0, 0, 6, 1, 1, 4, 0) + ((-27) * mn(p, 0, 0, 6, 0, 3, 3, 4) + (243) * mn(p, 0, 0, 6, 0, 3, 3, 2))) + (((-729) * mn(p, 0, 0, 6, 0, 3, 3, 0) + (243) * mn(p, 0, 0, 6, 0, 1, 5, 5)) + ((-1458) * mn(p, 0, 0, 6, 0, 1, 5, 3) + (2187) * mn(p, 0, 0, 6, 0, 1, 5, 1)))))))))));
    assert(curve_poly(r.0, r.1, r.2, b) == acc_cof0(p) * n12 + acc_cof1(p) * n25);
}

} // verus!
