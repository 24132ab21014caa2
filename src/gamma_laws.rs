//! The sRGB round trip: encoding a decoded byte gives the byte back.

use vstd::prelude::*;
use crate::gamma::{
    is_fifth_root, lemma_fifth_root_unique, srgb_at_most, srgb_decode, srgb_encode,
};

verus! {

/// `srgb_decode(b)` for a byte of the linear segment, given its value `v`.
proof fn lemma_decode_low(b: int, v: int)
    requires
        0 <= b <= 10,
        v * 329460 <= b * 6553500 < (v + 1) * 329460,
    ensures
        srgb_decode(b) == v,
{
    vstd::arithmetic::div_mod::lemma_fundamental_div_mod_converse(
        b * 6553500,
        329460,
        v,
        b * 6553500 - v * 329460,
    );
}

/// `srgb_decode(b)` for a byte of the power segment, given the square `u2`,
/// the floor fifth root `r` and the value `v` that the decoding takes.
proof fn lemma_decode_at(b: int, u2: int, r: int, v: int)
    requires
        11 <= b <= 255,
        u2 * 72374450625 <= (1000 * b + 14025) * (1000 * b + 14025) * 16777216 < (u2 + 1)
            * 72374450625,
        is_fifth_root(u2 * 79228162514264337593543950336, r),
        v * 281474976710656 <= u2 * r * 65535 < (v + 1) * 281474976710656,
    ensures
        srgb_decode(b) == v,
{
    let n2 = (1000 * b + 14025) * (1000 * b + 14025) * 16777216;
    vstd::arithmetic::div_mod::lemma_fundamental_div_mod_converse(
        n2,
        72374450625,
        u2,
        n2 - u2 * 72374450625,
    );
    lemma_fifth_root_unique(u2 * 79228162514264337593543950336, r);
    vstd::arithmetic::div_mod::lemma_fundamental_div_mod_converse(
        u2 * r * 65535,
        281474976710656,
        v,
        u2 * r * 65535 - v * 281474976710656,
    );
}

// The decoded value of each byte of the power segment, each certified by
// the bounds that pin its rounded square, its floor fifth root and its
// rounded result; every bound is a fact about integer literals.

proof fn lemma_decode_values_0()
    ensures
        srgb_decode(11) == 219,
        srgb_decode(12) == 240,
        srgb_decode(13) == 263,
        srgb_decode(14) == 287,
        srgb_decode(15) == 313,
{
    assert(145171 * 72374450625 <= (1000 * 11 + 14025) * (1000 * 11 + 14025) * 16777216
        < (145171 + 1) * 72374450625) by (nonlinear_arith);
    assert(is_fifth_root((145171 * 79228162514264337593543950336) as int, 6488613))
        by (nonlinear_arith);
    assert(219 * 281474976710656 <= 145171 * 6488613 * 65535 < (219 + 1) * 281474976710656)
        by (nonlinear_arith);
    lemma_decode_at(11, 145171, 6488613, 219);
    assert(157005 * 72374450625 <= (1000 * 12 + 14025) * (1000 * 12 + 14025) * 16777216
        < (157005 + 1) * 72374450625) by (nonlinear_arith);
    assert(is_fifth_root((157005 * 79228162514264337593543950336) as int, 6591110))
        by (nonlinear_arith);
    assert(240 * 281474976710656 <= 157005 * 6591110 * 65535 < (240 + 1) * 281474976710656)
        by (nonlinear_arith);
    lemma_decode_at(12, 157005, 6591110, 240);
    assert(169303 * 72374450625 <= (1000 * 13 + 14025) * (1000 * 13 + 14025) * 16777216
        < (169303 + 1) * 72374450625) by (nonlinear_arith);
    assert(is_fifth_root((169303 * 79228162514264337593543950336) as int, 6691274))
        by (nonlinear_arith);
    assert(263 * 281474976710656 <= 169303 * 6691274 * 65535 < (263 + 1) * 281474976710656)
        by (nonlinear_arith);
    lemma_decode_at(13, 169303, 6691274, 263);
    assert(182064 * 72374450625 <= (1000 * 14 + 14025) * (1000 * 14 + 14025) * 16777216
        < (182064 + 1) * 72374450625) by (nonlinear_arith);
    assert(is_fifth_root((182064 * 79228162514264337593543950336) as int, 6789233))
        by (nonlinear_arith);
    assert(287 * 281474976710656 <= 182064 * 6789233 * 65535 < (287 + 1) * 281474976710656)
        by (nonlinear_arith);
    lemma_decode_at(14, 182064, 6789233, 287);
    assert(195289 * 72374450625 <= (1000 * 15 + 14025) * (1000 * 15 + 14025) * 16777216
        < (195289 + 1) * 72374450625) by (nonlinear_arith);
    assert(is_fifth_root((195289 * 79228162514264337593543950336) as int, 6885119))
        by (nonlinear_arith);
    assert(313 * 281474976710656 <= 195289 * 6885119 * 65535 < (313 + 1) * 281474976710656)
        by (nonlinear_arith);
    lemma_decode_at(15, 195289, 6885119, 313);
}

proof fn lemma_decode_values_1()
    ensures
        srgb_decode(16) == 339,
        srgb_decode(17) == 367,
        srgb_decode(18) == 396,
        srgb_decode(19) == 426,
        srgb_decode(20) == 458,
{
    assert(208978 * 72374450625 <= (1000 * 16 + 14025) * (1000 * 16 + 14025) * 16777216
        < (208978 + 1) * 72374450625) by (nonlinear_arith);
    assert(is_fifth_root((208978 * 79228162514264337593543950336) as int, 6979045))
        by (nonlinear_arith);
    assert(339 * 281474976710656 <= 208978 * 6979045 * 65535 < (339 + 1) * 281474976710656)
        by (nonlinear_arith);
    lemma_decode_at(16, 208978, 6979045, 339);
    assert(223130 * 72374450625 <= (1000 * 17 + 14025) * (1000 * 17 + 14025) * 16777216
        < (223130 + 1) * 72374450625) by (nonlinear_arith);
    assert(is_fifth_root((223130 * 79228162514264337593543950336) as int, 7071108))
        by (nonlinear_arith);
    assert(367 * 281474976710656 <= 223130 * 7071108 * 65535 < (367 + 1) * 281474976710656)
        by (nonlinear_arith);
    lemma_decode_at(17, 223130, 7071108, 367);
    assert(237745 * 72374450625 <= (1000 * 18 + 14025) * (1000 * 18 + 14025) * 16777216
        < (237745 + 1) * 72374450625) by (nonlinear_arith);
    assert(is_fifth_root((237745 * 79228162514264337593543950336) as int, 7161404))
        by (nonlinear_arith);
    assert(396 * 281474976710656 <= 237745 * 7161404 * 65535 < (396 + 1) * 281474976710656)
        by (nonlinear_arith);
    lemma_decode_at(18, 237745, 7161404, 396);
    assert(252825 * 72374450625 <= (1000 * 19 + 14025) * (1000 * 19 + 14025) * 16777216
        < (252825 + 1) * 72374450625) by (nonlinear_arith);
    assert(is_fifth_root((252825 * 79228162514264337593543950336) as int, 7250031))
        by (nonlinear_arith);
    assert(426 * 281474976710656 <= 252825 * 7250031 * 65535 < (426 + 1) * 281474976710656)
        by (nonlinear_arith);
    lemma_decode_at(19, 252825, 7250031, 426);
    assert(268368 * 72374450625 <= (1000 * 20 + 14025) * (1000 * 20 + 14025) * 16777216
        < (268368 + 1) * 72374450625) by (nonlinear_arith);
    assert(is_fifth_root((268368 * 79228162514264337593543950336) as int, 7337059))
        by (nonlinear_arith);
    assert(458 * 281474976710656 <= 268368 * 7337059 * 65535 < (458 + 1) * 281474976710656)
        by (nonlinear_arith);
    lemma_decode_at(20, 268368, 7337059, 458);
}

proof fn lemma_decode_values_2()
    ensures
        srgb_decode(21) == 491,
        srgb_decode(22) == 525,
        srgb_decode(23) == 561,
        srgb_decode(24) == 598,
        srgb_decode(25) == 637,
{
    assert(284374 * 72374450625 <= (1000 * 21 + 14025) * (1000 * 21 + 14025) * 16777216
        < (284374 + 1) * 72374450625) by (nonlinear_arith);
    assert(is_fifth_root((284374 * 79228162514264337593543950336) as int, 7422563))
        by (nonlinear_arith);
    assert(491 * 281474976710656 <= 284374 * 7422563 * 65535 < (491 + 1) * 281474976710656)
        by (nonlinear_arith);
    lemma_decode_at(21, 284374, 7422563, 491);
    assert(300844 * 72374450625 <= (1000 * 22 + 14025) * (1000 * 22 + 14025) * 16777216
        < (300844 + 1) * 72374450625) by (nonlinear_arith);
    assert(is_fifth_root((300844 * 79228162514264337593543950336) as int, 7506615))
        by (nonlinear_arith);
    assert(525 * 281474976710656 <= 300844 * 7506615 * 65535 < (525 + 1) * 281474976710656)
        by (nonlinear_arith);
    lemma_decode_at(22, 300844, 7506615, 525);
    assert(317778 * 72374450625 <= (1000 * 23 + 14025) * (1000 * 23 + 14025) * 16777216
        < (317778 + 1) * 72374450625) by (nonlinear_arith);
    assert(is_fifth_root((317778 * 79228162514264337593543950336) as int, 7589281))
        by (nonlinear_arith);
    assert(561 * 281474976710656 <= 317778 * 7589281 * 65535 < (561 + 1) * 281474976710656)
        by (nonlinear_arith);
    lemma_decode_at(23, 317778, 7589281, 561);
    assert(335176 * 72374450625 <= (1000 * 24 + 14025) * (1000 * 24 + 14025) * 16777216
        < (335176 + 1) * 72374450625) by (nonlinear_arith);
    assert(is_fifth_root((335176 * 79228162514264337593543950336) as int, 7670620))
        by (nonlinear_arith);
    assert(598 * 281474976710656 <= 335176 * 7670620 * 65535 < (598 + 1) * 281474976710656)
        by (nonlinear_arith);
    lemma_decode_at(24, 335176, 7670620, 598);
    assert(353037 * 72374450625 <= (1000 * 25 + 14025) * (1000 * 25 + 14025) * 16777216
        < (353037 + 1) * 72374450625) by (nonlinear_arith);
    assert(is_fifth_root((353037 * 79228162514264337593543950336) as int, 7750682))
        by (nonlinear_arith);
    assert(637 * 281474976710656 <= 353037 * 7750682 * 65535 < (637 + 1) * 281474976710656)
        by (nonlinear_arith);
    lemma_decode_at(25, 353037, 7750682, 637);
}

proof fn lemma_decode_values_3()
    ensures
        srgb_decode(26) == 676,
        srgb_decode(27) == 718,
        srgb_decode(28) == 761,
        srgb_decode(29) == 805,
        srgb_decode(30) == 850,
{
    assert(371361 * 72374450625 <= (1000 * 26 + 14025) * (1000 * 26 + 14025) * 16777216
        < (371361 + 1) * 72374450625) by (nonlinear_arith);
    assert(is_fifth_root((371361 * 79228162514264337593543950336) as int, 7829520))
        by (nonlinear_arith);
    assert(676 * 281474976710656 <= 371361 * 7829520 * 65535 < (676 + 1) * 281474976710656)
        by (nonlinear_arith);
    lemma_decode_at(26, 371361, 7829520, 676);
    assert(390150 * 72374450625 <= (1000 * 27 + 14025) * (1000 * 27 + 14025) * 16777216
        < (390150 + 1) * 72374450625) by (nonlinear_arith);
    assert(is_fifth_root((390150 * 79228162514264337593543950336) as int, 7907191))
        by (nonlinear_arith);
    assert(718 * 281474976710656 <= 390150 * 7907191 * 65535 < (718 + 1) * 281474976710656)
        by (nonlinear_arith);
    lemma_decode_at(27, 390150, 7907191, 718);
    assert(409402 * 72374450625 <= (1000 * 28 + 14025) * (1000 * 28 + 14025) * 16777216
        < (409402 + 1) * 72374450625) by (nonlinear_arith);
    assert(is_fifth_root((409402 * 79228162514264337593543950336) as int, 7983731))
        by (nonlinear_arith);
    assert(761 * 281474976710656 <= 409402 * 7983731 * 65535 < (761 + 1) * 281474976710656)
        by (nonlinear_arith);
    lemma_decode_at(28, 409402, 7983731, 761);
    assert(429117 * 72374450625 <= (1000 * 29 + 14025) * (1000 * 29 + 14025) * 16777216
        < (429117 + 1) * 72374450625) by (nonlinear_arith);
    assert(is_fifth_root((429117 * 79228162514264337593543950336) as int, 8059183))
        by (nonlinear_arith);
    assert(805 * 281474976710656 <= 429117 * 8059183 * 65535 < (805 + 1) * 281474976710656)
        by (nonlinear_arith);
    lemma_decode_at(29, 429117, 8059183, 805);
    assert(449296 * 72374450625 <= (1000 * 30 + 14025) * (1000 * 30 + 14025) * 16777216
        < (449296 + 1) * 72374450625) by (nonlinear_arith);
    assert(is_fifth_root((449296 * 79228162514264337593543950336) as int, 8133592))
        by (nonlinear_arith);
    assert(850 * 281474976710656 <= 449296 * 8133592 * 65535 < (850 + 1) * 281474976710656)
        by (nonlinear_arith);
    lemma_decode_at(30, 449296, 8133592, 850);
}

proof fn lemma_decode_values_4()
    ensures
        srgb_decode(31) == 897,
        srgb_decode(32) == 946,
        srgb_decode(33) == 996,
        srgb_decode(34) == 1048,
        srgb_decode(35) == 1101,
{
    assert(469939 * 72374450625 <= (1000 * 31 + 14025) * (1000 * 31 + 14025) * 16777216
        < (469939 + 1) * 72374450625) by (nonlinear_arith);
    assert(is_fifth_root((469939 * 79228162514264337593543950336) as int, 8206995))
        by (nonlinear_arith);
    assert(897 * 281474976710656 <= 469939 * 8206995 * 65535 < (897 + 1) * 281474976710656)
        by (nonlinear_arith);
    lemma_decode_at(31, 469939, 8206995, 897);
    assert(491046 * 72374450625 <= (1000 * 32 + 14025) * (1000 * 32 + 14025) * 16777216
        < (491046 + 1) * 72374450625) by (nonlinear_arith);
    assert(is_fifth_root((491046 * 79228162514264337593543950336) as int, 8279428))
        by (nonlinear_arith);
    assert(946 * 281474976710656 <= 491046 * 8279428 * 65535 < (946 + 1) * 281474976710656)
        by (nonlinear_arith);
    lemma_decode_at(32, 491046, 8279428, 946);
    assert(512616 * 72374450625 <= (1000 * 33 + 14025) * (1000 * 33 + 14025) * 16777216
        < (512616 + 1) * 72374450625) by (nonlinear_arith);
    assert(is_fifth_root((512616 * 79228162514264337593543950336) as int, 8350920))
        by (nonlinear_arith);
    assert(996 * 281474976710656 <= 512616 * 8350920 * 65535 < (996 + 1) * 281474976710656)
        by (nonlinear_arith);
    lemma_decode_at(33, 512616, 8350920, 996);
    assert(534649 * 72374450625 <= (1000 * 34 + 14025) * (1000 * 34 + 14025) * 16777216
        < (534649 + 1) * 72374450625) by (nonlinear_arith);
    assert(is_fifth_root((534649 * 79228162514264337593543950336) as int, 8421504))
        by (nonlinear_arith);
    assert(1048 * 281474976710656 <= 534649 * 8421504 * 65535 < (1048 + 1) * 281474976710656)
        by (nonlinear_arith);
    lemma_decode_at(34, 534649, 8421504, 1048);
    assert(557147 * 72374450625 <= (1000 * 35 + 14025) * (1000 * 35 + 14025) * 16777216
        < (557147 + 1) * 72374450625) by (nonlinear_arith);
    assert(is_fifth_root((557147 * 79228162514264337593543950336) as int, 8491215))
        by (nonlinear_arith);
    assert(1101 * 281474976710656 <= 557147 * 8491215 * 65535 < (1101 + 1) * 281474976710656)
        by (nonlinear_arith);
    lemma_decode_at(35, 557147, 8491215, 1101);
}

proof fn lemma_decode_values_5()
    ensures
        srgb_decode(36) == 1156,
        srgb_decode(37) == 1212,
        srgb_decode(38) == 1270,
        srgb_decode(39) == 1329,
        srgb_decode(40) == 1390,
{
    assert(580107 * 72374450625 <= (1000 * 36 + 14025) * (1000 * 36 + 14025) * 16777216
        < (580107 + 1) * 72374450625) by (nonlinear_arith);
    assert(is_fifth_root((580107 * 79228162514264337593543950336) as int, 8560074))
        by (nonlinear_arith);
    assert(1156 * 281474976710656 <= 580107 * 8560074 * 65535 < (1156 + 1) * 281474976710656)
        by (nonlinear_arith);
    lemma_decode_at(36, 580107, 8560074, 1156);
    assert(603532 * 72374450625 <= (1000 * 37 + 14025) * (1000 * 37 + 14025) * 16777216
        < (603532 + 1) * 72374450625) by (nonlinear_arith);
    assert(is_fifth_root((603532 * 79228162514264337593543950336) as int, 8628116))
        by (nonlinear_arith);
    assert(1212 * 281474976710656 <= 603532 * 8628116 * 65535 < (1212 + 1) * 281474976710656)
        by (nonlinear_arith);
    lemma_decode_at(37, 603532, 8628116, 1212);
    assert(627420 * 72374450625 <= (1000 * 38 + 14025) * (1000 * 38 + 14025) * 16777216
        < (627420 + 1) * 72374450625) by (nonlinear_arith);
    assert(is_fifth_root((627420 * 79228162514264337593543950336) as int, 8695360))
        by (nonlinear_arith);
    assert(1270 * 281474976710656 <= 627420 * 8695360 * 65535 < (1270 + 1) * 281474976710656)
        by (nonlinear_arith);
    lemma_decode_at(38, 627420, 8695360, 1270);
    assert(651772 * 72374450625 <= (1000 * 39 + 14025) * (1000 * 39 + 14025) * 16777216
        < (651772 + 1) * 72374450625) by (nonlinear_arith);
    assert(is_fifth_root((651772 * 79228162514264337593543950336) as int, 8761834))
        by (nonlinear_arith);
    assert(1329 * 281474976710656 <= 651772 * 8761834 * 65535 < (1329 + 1) * 281474976710656)
        by (nonlinear_arith);
    lemma_decode_at(39, 651772, 8761834, 1329);
    assert(676587 * 72374450625 <= (1000 * 40 + 14025) * (1000 * 40 + 14025) * 16777216
        < (676587 + 1) * 72374450625) by (nonlinear_arith);
    assert(is_fifth_root((676587 * 79228162514264337593543950336) as int, 8827559))
        by (nonlinear_arith);
    assert(1390 * 281474976710656 <= 676587 * 8827559 * 65535 < (1390 + 1) * 281474976710656)
        by (nonlinear_arith);
    lemma_decode_at(40, 676587, 8827559, 1390);
}

proof fn lemma_decode_values_6()
    ensures
        srgb_decode(41) == 1453,
        srgb_decode(42) == 1517,
        srgb_decode(43) == 1583,
        srgb_decode(44) == 1650,
        srgb_decode(45) == 1719,
{
    assert(701866 * 72374450625 <= (1000 * 41 + 14025) * (1000 * 41 + 14025) * 16777216
        < (701866 + 1) * 72374450625) by (nonlinear_arith);
    assert(is_fifth_root((701866 * 79228162514264337593543950336) as int, 8892559))
        by (nonlinear_arith);
    assert(1453 * 281474976710656 <= 701866 * 8892559 * 65535 < (1453 + 1) * 281474976710656)
        by (nonlinear_arith);
    lemma_decode_at(41, 701866, 8892559, 1453);
    assert(727609 * 72374450625 <= (1000 * 42 + 14025) * (1000 * 42 + 14025) * 16777216
        < (727609 + 1) * 72374450625) by (nonlinear_arith);
    assert(is_fifth_root((727609 * 79228162514264337593543950336) as int, 8956854))
        by (nonlinear_arith);
    assert(1517 * 281474976710656 <= 727609 * 8956854 * 65535 < (1517 + 1) * 281474976710656)
        by (nonlinear_arith);
    lemma_decode_at(42, 727609, 8956854, 1517);
    assert(753815 * 72374450625 <= (1000 * 43 + 14025) * (1000 * 43 + 14025) * 16777216
        < (753815 + 1) * 72374450625) by (nonlinear_arith);
    assert(is_fifth_root((753815 * 79228162514264337593543950336) as int, 9020463))
        by (nonlinear_arith);
    assert(1583 * 281474976710656 <= 753815 * 9020463 * 65535 < (1583 + 1) * 281474976710656)
        by (nonlinear_arith);
    lemma_decode_at(43, 753815, 9020463, 1583);
    assert(780485 * 72374450625 <= (1000 * 44 + 14025) * (1000 * 44 + 14025) * 16777216
        < (780485 + 1) * 72374450625) by (nonlinear_arith);
    assert(is_fifth_root((780485 * 79228162514264337593543950336) as int, 9083408))
        by (nonlinear_arith);
    assert(1650 * 281474976710656 <= 780485 * 9083408 * 65535 < (1650 + 1) * 281474976710656)
        by (nonlinear_arith);
    lemma_decode_at(44, 780485, 9083408, 1650);
    assert(807619 * 72374450625 <= (1000 * 45 + 14025) * (1000 * 45 + 14025) * 16777216
        < (807619 + 1) * 72374450625) by (nonlinear_arith);
    assert(is_fifth_root((807619 * 79228162514264337593543950336) as int, 9145705))
        by (nonlinear_arith);
    assert(1719 * 281474976710656 <= 807619 * 9145705 * 65535 < (1719 + 1) * 281474976710656)
        by (nonlinear_arith);
    lemma_decode_at(45, 807619, 9145705, 1719);
}

proof fn lemma_decode_values_7()
    ensures
        srgb_decode(46) == 1790,
        srgb_decode(47) == 1862,
        srgb_decode(48) == 1937,
        srgb_decode(49) == 2012,
        srgb_decode(50) == 2090,
{
    assert(835216 * 72374450625 <= (1000 * 46 + 14025) * (1000 * 46 + 14025) * 16777216
        < (835216 + 1) * 72374450625) by (nonlinear_arith);
    assert(is_fifth_root((835216 * 79228162514264337593543950336) as int, 9207371))
        by (nonlinear_arith);
    assert(1790 * 281474976710656 <= 835216 * 9207371 * 65535 < (1790 + 1) * 281474976710656)
        by (nonlinear_arith);
    lemma_decode_at(46, 835216, 9207371, 1790);
    assert(863277 * 72374450625 <= (1000 * 47 + 14025) * (1000 * 47 + 14025) * 16777216
        < (863277 + 1) * 72374450625) by (nonlinear_arith);
    assert(is_fifth_root((863277 * 79228162514264337593543950336) as int, 9268425))
        by (nonlinear_arith);
    assert(1862 * 281474976710656 <= 863277 * 9268425 * 65535 < (1862 + 1) * 281474976710656)
        by (nonlinear_arith);
    lemma_decode_at(47, 863277, 9268425, 1862);
    assert(891801 * 72374450625 <= (1000 * 48 + 14025) * (1000 * 48 + 14025) * 16777216
        < (891801 + 1) * 72374450625) by (nonlinear_arith);
    assert(is_fifth_root((891801 * 79228162514264337593543950336) as int, 9328880))
        by (nonlinear_arith);
    assert(1937 * 281474976710656 <= 891801 * 9328880 * 65535 < (1937 + 1) * 281474976710656)
        by (nonlinear_arith);
    lemma_decode_at(48, 891801, 9328880, 1937);
    assert(920789 * 72374450625 <= (1000 * 49 + 14025) * (1000 * 49 + 14025) * 16777216
        < (920789 + 1) * 72374450625) by (nonlinear_arith);
    assert(is_fifth_root((920789 * 79228162514264337593543950336) as int, 9388753))
        by (nonlinear_arith);
    assert(2012 * 281474976710656 <= 920789 * 9388753 * 65535 < (2012 + 1) * 281474976710656)
        by (nonlinear_arith);
    lemma_decode_at(49, 920789, 9388753, 2012);
    assert(950241 * 72374450625 <= (1000 * 50 + 14025) * (1000 * 50 + 14025) * 16777216
        < (950241 + 1) * 72374450625) by (nonlinear_arith);
    assert(is_fifth_root((950241 * 79228162514264337593543950336) as int, 9448060))
        by (nonlinear_arith);
    assert(2090 * 281474976710656 <= 950241 * 9448060 * 65535 < (2090 + 1) * 281474976710656)
        by (nonlinear_arith);
    lemma_decode_at(50, 950241, 9448060, 2090);
}

proof fn lemma_decode_values_8()
    ensures
        srgb_decode(51) == 2169,
        srgb_decode(52) == 2250,
        srgb_decode(53) == 2333,
        srgb_decode(54) == 2417,
        srgb_decode(55) == 2503,
{
    assert(980156 * 72374450625 <= (1000 * 51 + 14025) * (1000 * 51 + 14025) * 16777216
        < (980156 + 1) * 72374450625) by (nonlinear_arith);
    assert(is_fifth_root((980156 * 79228162514264337593543950336) as int, 9506813))
        by (nonlinear_arith);
    assert(2169 * 281474976710656 <= 980156 * 9506813 * 65535 < (2169 + 1) * 281474976710656)
        by (nonlinear_arith);
    lemma_decode_at(51, 980156, 9506813, 2169);
    assert(1010535 * 72374450625 <= (1000 * 52 + 14025) * (1000 * 52 + 14025) * 16777216
        < (1010535 + 1) * 72374450625) by (nonlinear_arith);
    assert(is_fifth_root((1010535 * 79228162514264337593543950336) as int, 9565026))
        by (nonlinear_arith);
    assert(2250 * 281474976710656 <= 1010535 * 9565026 * 65535 < (2250 + 1) * 281474976710656)
        by (nonlinear_arith);
    lemma_decode_at(52, 1010535, 9565026, 2250);
    assert(1041377 * 72374450625 <= (1000 * 53 + 14025) * (1000 * 53 + 14025) * 16777216
        < (1041377 + 1) * 72374450625) by (nonlinear_arith);
    assert(is_fifth_root((1041377 * 79228162514264337593543950336) as int, 9622712))
        by (nonlinear_arith);
    assert(2333 * 281474976710656 <= 1041377 * 9622712 * 65535 < (2333 + 1) * 281474976710656)
        by (nonlinear_arith);
    lemma_decode_at(53, 1041377, 9622712, 2333);
    assert(1072683 * 72374450625 <= (1000 * 54 + 14025) * (1000 * 54 + 14025) * 16777216
        < (1072683 + 1) * 72374450625) by (nonlinear_arith);
    assert(is_fifth_root((1072683 * 79228162514264337593543950336) as int, 9679884))
        by (nonlinear_arith);
    assert(2417 * 281474976710656 <= 1072683 * 9679884 * 65535 < (2417 + 1) * 281474976710656)
        by (nonlinear_arith);
    lemma_decode_at(54, 1072683, 9679884, 2417);
    assert(1104453 * 72374450625 <= (1000 * 55 + 14025) * (1000 * 55 + 14025) * 16777216
        < (1104453 + 1) * 72374450625) by (nonlinear_arith);
    assert(is_fifth_root((1104453 * 79228162514264337593543950336) as int, 9736555))
        by (nonlinear_arith);
    assert(2503 * 281474976710656 <= 1104453 * 9736555 * 65535 < (2503 + 1) * 281474976710656)
        by (nonlinear_arith);
    lemma_decode_at(55, 1104453, 9736555, 2503);
}

proof fn lemma_decode_values_9()
    ensures
        srgb_decode(56) == 2591,
        srgb_decode(57) == 2681,
        srgb_decode(58) == 2772,
        srgb_decode(59) == 2866,
        srgb_decode(60) == 2961,
{
    assert(1136686 * 72374450625 <= (1000 * 56 + 14025) * (1000 * 56 + 14025) * 16777216
        < (1136686 + 1) * 72374450625) by (nonlinear_arith);
    assert(is_fifth_root((1136686 * 79228162514264337593543950336) as int, 9792735))
        by (nonlinear_arith);
    assert(2591 * 281474976710656 <= 1136686 * 9792735 * 65535 < (2591 + 1) * 281474976710656)
        by (nonlinear_arith);
    lemma_decode_at(56, 1136686, 9792735, 2591);
    assert(1169383 * 72374450625 <= (1000 * 57 + 14025) * (1000 * 57 + 14025) * 16777216
        < (1169383 + 1) * 72374450625) by (nonlinear_arith);
    assert(is_fifth_root((1169383 * 79228162514264337593543950336) as int, 9848436))
        by (nonlinear_arith);
    assert(2681 * 281474976710656 <= 1169383 * 9848436 * 65535 < (2681 + 1) * 281474976710656)
        by (nonlinear_arith);
    lemma_decode_at(57, 1169383, 9848436, 2681);
    assert(1202544 * 72374450625 <= (1000 * 58 + 14025) * (1000 * 58 + 14025) * 16777216
        < (1202544 + 1) * 72374450625) by (nonlinear_arith);
    assert(is_fifth_root((1202544 * 79228162514264337593543950336) as int, 9903668))
        by (nonlinear_arith);
    assert(2772 * 281474976710656 <= 1202544 * 9903668 * 65535 < (2772 + 1) * 281474976710656)
        by (nonlinear_arith);
    lemma_decode_at(58, 1202544, 9903668, 2772);
    assert(1236168 * 72374450625 <= (1000 * 59 + 14025) * (1000 * 59 + 14025) * 16777216
        < (1236168 + 1) * 72374450625) by (nonlinear_arith);
    assert(is_fifth_root((1236168 * 79228162514264337593543950336) as int, 9958442))
        by (nonlinear_arith);
    assert(2866 * 281474976710656 <= 1236168 * 9958442 * 65535 < (2866 + 1) * 281474976710656)
        by (nonlinear_arith);
    lemma_decode_at(59, 1236168, 9958442, 2866);
    assert(1270256 * 72374450625 <= (1000 * 60 + 14025) * (1000 * 60 + 14025) * 16777216
        < (1270256 + 1) * 72374450625) by (nonlinear_arith);
    assert(is_fifth_root((1270256 * 79228162514264337593543950336) as int, 10012768))
        by (nonlinear_arith);
    assert(2961 * 281474976710656 <= 1270256 * 10012768 * 65535 < (2961 + 1) * 281474976710656)
        by (nonlinear_arith);
    lemma_decode_at(60, 1270256, 10012768, 2961);
}

proof fn lemma_decode_values_10()
    ensures
        srgb_decode(61) == 3058,
        srgb_decode(62) == 3156,
        srgb_decode(63) == 3257,
        srgb_decode(64) == 3359,
        srgb_decode(65) == 3464,
{
    assert(1304808 * 72374450625 <= (1000 * 61 + 14025) * (1000 * 61 + 14025) * 16777216
        < (1304808 + 1) * 72374450625) by (nonlinear_arith);
    assert(is_fifth_root((1304808 * 79228162514264337593543950336) as int, 10066656))
        by (nonlinear_arith);
    assert(3058 * 281474976710656 <= 1304808 * 10066656 * 65535 < (3058 + 1) * 281474976710656)
        by (nonlinear_arith);
    lemma_decode_at(61, 1304808, 10066656, 3058);
    assert(1339823 * 72374450625 <= (1000 * 62 + 14025) * (1000 * 62 + 14025) * 16777216
        < (1339823 + 1) * 72374450625) by (nonlinear_arith);
    assert(is_fifth_root((1339823 * 79228162514264337593543950336) as int, 10120113))
        by (nonlinear_arith);
    assert(3156 * 281474976710656 <= 1339823 * 10120113 * 65535 < (3156 + 1) * 281474976710656)
        by (nonlinear_arith);
    lemma_decode_at(62, 1339823, 10120113, 3156);
    assert(1375301 * 72374450625 <= (1000 * 63 + 14025) * (1000 * 63 + 14025) * 16777216
        < (1375301 + 1) * 72374450625) by (nonlinear_arith);
    assert(is_fifth_root((1375301 * 79228162514264337593543950336) as int, 10173150))
        by (nonlinear_arith);
    assert(3257 * 281474976710656 <= 1375301 * 10173150 * 65535 < (3257 + 1) * 281474976710656)
        by (nonlinear_arith);
    lemma_decode_at(63, 1375301, 10173150, 3257);
    assert(1411244 * 72374450625 <= (1000 * 64 + 14025) * (1000 * 64 + 14025) * 16777216
        < (1411244 + 1) * 72374450625) by (nonlinear_arith);
    assert(is_fifth_root((1411244 * 79228162514264337593543950336) as int, 10225777))
        by (nonlinear_arith);
    assert(3359 * 281474976710656 <= 1411244 * 10225777 * 65535 < (3359 + 1) * 281474976710656)
        by (nonlinear_arith);
    lemma_decode_at(64, 1411244, 10225777, 3359);
    assert(1447650 * 72374450625 <= (1000 * 65 + 14025) * (1000 * 65 + 14025) * 16777216
        < (1447650 + 1) * 72374450625) by (nonlinear_arith);
    assert(is_fifth_root((1447650 * 79228162514264337593543950336) as int, 10278000))
        by (nonlinear_arith);
    assert(3464 * 281474976710656 <= 1447650 * 10278000 * 65535 < (3464 + 1) * 281474976710656)
        by (nonlinear_arith);
    lemma_decode_at(65, 1447650, 10278000, 3464);
}

proof fn lemma_decode_values_11()
    ensures
        srgb_decode(66) == 3570,
        srgb_decode(67) == 3678,
        srgb_decode(68) == 3788,
        srgb_decode(69) == 3900,
        srgb_decode(70) == 4013,
{
    assert(1484519 * 72374450625 <= (1000 * 66 + 14025) * (1000 * 66 + 14025) * 16777216
        < (1484519 + 1) * 72374450625) by (nonlinear_arith);
    assert(is_fifth_root((1484519 * 79228162514264337593543950336) as int, 10329827))
        by (nonlinear_arith);
    assert(3570 * 281474976710656 <= 1484519 * 10329827 * 65535 < (3570 + 1) * 281474976710656)
        by (nonlinear_arith);
    lemma_decode_at(66, 1484519, 10329827, 3570);
    assert(1521852 * 72374450625 <= (1000 * 67 + 14025) * (1000 * 67 + 14025) * 16777216
        < (1521852 + 1) * 72374450625) by (nonlinear_arith);
    assert(is_fifth_root((1521852 * 79228162514264337593543950336) as int, 10381267))
        by (nonlinear_arith);
    assert(3678 * 281474976710656 <= 1521852 * 10381267 * 65535 < (3678 + 1) * 281474976710656)
        by (nonlinear_arith);
    lemma_decode_at(67, 1521852, 10381267, 3678);
    assert(1559649 * 72374450625 <= (1000 * 68 + 14025) * (1000 * 68 + 14025) * 16777216
        < (1559649 + 1) * 72374450625) by (nonlinear_arith);
    assert(is_fifth_root((1559649 * 79228162514264337593543950336) as int, 10432329))
        by (nonlinear_arith);
    assert(3788 * 281474976710656 <= 1559649 * 10432329 * 65535 < (3788 + 1) * 281474976710656)
        by (nonlinear_arith);
    lemma_decode_at(68, 1559649, 10432329, 3788);
    assert(1597910 * 72374450625 <= (1000 * 69 + 14025) * (1000 * 69 + 14025) * 16777216
        < (1597910 + 1) * 72374450625) by (nonlinear_arith);
    assert(is_fifth_root((1597910 * 79228162514264337593543950336) as int, 10483019))
        by (nonlinear_arith);
    assert(3900 * 281474976710656 <= 1597910 * 10483019 * 65535 < (3900 + 1) * 281474976710656)
        by (nonlinear_arith);
    lemma_decode_at(69, 1597910, 10483019, 3900);
    assert(1636634 * 72374450625 <= (1000 * 70 + 14025) * (1000 * 70 + 14025) * 16777216
        < (1636634 + 1) * 72374450625) by (nonlinear_arith);
    assert(is_fifth_root((1636634 * 79228162514264337593543950336) as int, 10533343))
        by (nonlinear_arith);
    assert(4013 * 281474976710656 <= 1636634 * 10533343 * 65535 < (4013 + 1) * 281474976710656)
        by (nonlinear_arith);
    lemma_decode_at(70, 1636634, 10533343, 4013);
}

proof fn lemma_decode_values_12()
    ensures
        srgb_decode(71) == 4129,
        srgb_decode(72) == 4246,
        srgb_decode(73) == 4366,
        srgb_decode(74) == 4487,
        srgb_decode(75) == 4611,
{
    assert(1675822 * 72374450625 <= (1000 * 71 + 14025) * (1000 * 71 + 14025) * 16777216
        < (1675822 + 1) * 72374450625) by (nonlinear_arith);
    assert(is_fifth_root((1675822 * 79228162514264337593543950336) as int, 10583309))
        by (nonlinear_arith);
    assert(4129 * 281474976710656 <= 1675822 * 10583309 * 65535 < (4129 + 1) * 281474976710656)
        by (nonlinear_arith);
    lemma_decode_at(71, 1675822, 10583309, 4129);
    assert(1715473 * 72374450625 <= (1000 * 72 + 14025) * (1000 * 72 + 14025) * 16777216
        < (1715473 + 1) * 72374450625) by (nonlinear_arith);
    assert(is_fifth_root((1715473 * 79228162514264337593543950336) as int, 10632923))
        by (nonlinear_arith);
    assert(4246 * 281474976710656 <= 1715473 * 10632923 * 65535 < (4246 + 1) * 281474976710656)
        by (nonlinear_arith);
    lemma_decode_at(72, 1715473, 10632923, 4246);
    assert(1755588 * 72374450625 <= (1000 * 73 + 14025) * (1000 * 73 + 14025) * 16777216
        < (1755588 + 1) * 72374450625) by (nonlinear_arith);
    assert(is_fifth_root((1755588 * 79228162514264337593543950336) as int, 10682193))
        by (nonlinear_arith);
    assert(4366 * 281474976710656 <= 1755588 * 10682193 * 65535 < (4366 + 1) * 281474976710656)
        by (nonlinear_arith);
    lemma_decode_at(73, 1755588, 10682193, 4366);
    assert(1796166 * 72374450625 <= (1000 * 74 + 14025) * (1000 * 74 + 14025) * 16777216
        < (1796166 + 1) * 72374450625) by (nonlinear_arith);
    assert(is_fifth_root((1796166 * 79228162514264337593543950336) as int, 10731123))
        by (nonlinear_arith);
    assert(4487 * 281474976710656 <= 1796166 * 10731123 * 65535 < (4487 + 1) * 281474976710656)
        by (nonlinear_arith);
    lemma_decode_at(74, 1796166, 10731123, 4487);
    assert(1837209 * 72374450625 <= (1000 * 75 + 14025) * (1000 * 75 + 14025) * 16777216
        < (1837209 + 1) * 72374450625) by (nonlinear_arith);
    assert(is_fifth_root((1837209 * 79228162514264337593543950336) as int, 10779723))
        by (nonlinear_arith);
    assert(4611 * 281474976710656 <= 1837209 * 10779723 * 65535 < (4611 + 1) * 281474976710656)
        by (nonlinear_arith);
    lemma_decode_at(75, 1837209, 10779723, 4611);
}

proof fn lemma_decode_values_13()
    ensures
        srgb_decode(76) == 4736,
        srgb_decode(77) == 4863,
        srgb_decode(78) == 4992,
        srgb_decode(79) == 5124,
        srgb_decode(80) == 5257,
{
    assert(1878714 * 72374450625 <= (1000 * 76 + 14025) * (1000 * 76 + 14025) * 16777216
        < (1878714 + 1) * 72374450625) by (nonlinear_arith);
    assert(is_fifth_root((1878714 * 79228162514264337593543950336) as int, 10827995))
        by (nonlinear_arith);
    assert(4736 * 281474976710656 <= 1878714 * 10827995 * 65535 < (4736 + 1) * 281474976710656)
        by (nonlinear_arith);
    lemma_decode_at(76, 1878714, 10827995, 4736);
    assert(1920684 * 72374450625 <= (1000 * 77 + 14025) * (1000 * 77 + 14025) * 16777216
        < (1920684 + 1) * 72374450625) by (nonlinear_arith);
    assert(is_fifth_root((1920684 * 79228162514264337593543950336) as int, 10875947))
        by (nonlinear_arith);
    assert(4863 * 281474976710656 <= 1920684 * 10875947 * 65535 < (4863 + 1) * 281474976710656)
        by (nonlinear_arith);
    lemma_decode_at(77, 1920684, 10875947, 4863);
    assert(1963117 * 72374450625 <= (1000 * 78 + 14025) * (1000 * 78 + 14025) * 16777216
        < (1963117 + 1) * 72374450625) by (nonlinear_arith);
    assert(is_fifth_root((1963117 * 79228162514264337593543950336) as int, 10923584))
        by (nonlinear_arith);
    assert(4992 * 281474976710656 <= 1963117 * 10923584 * 65535 < (4992 + 1) * 281474976710656)
        by (nonlinear_arith);
    lemma_decode_at(78, 1963117, 10923584, 4992);
    assert(2006014 * 72374450625 <= (1000 * 79 + 14025) * (1000 * 79 + 14025) * 16777216
        < (2006014 + 1) * 72374450625) by (nonlinear_arith);
    assert(is_fifth_root((2006014 * 79228162514264337593543950336) as int, 10970911))
        by (nonlinear_arith);
    assert(5124 * 281474976710656 <= 2006014 * 10970911 * 65535 < (5124 + 1) * 281474976710656)
        by (nonlinear_arith);
    lemma_decode_at(79, 2006014, 10970911, 5124);
    assert(2049374 * 72374450625 <= (1000 * 80 + 14025) * (1000 * 80 + 14025) * 16777216
        < (2049374 + 1) * 72374450625) by (nonlinear_arith);
    assert(is_fifth_root((2049374 * 79228162514264337593543950336) as int, 11017933))
        by (nonlinear_arith);
    assert(5257 * 281474976710656 <= 2049374 * 11017933 * 65535 < (5257 + 1) * 281474976710656)
        by (nonlinear_arith);
    lemma_decode_at(80, 2049374, 11017933, 5257);
}

proof fn lemma_decode_values_14()
    ensures
        srgb_decode(81) == 5392,
        srgb_decode(82) == 5529,
        srgb_decode(83) == 5668,
        srgb_decode(84) == 5810,
        srgb_decode(85) == 5953,
{
    assert(2093198 * 72374450625 <= (1000 * 81 + 14025) * (1000 * 81 + 14025) * 16777216
        < (2093198 + 1) * 72374450625) by (nonlinear_arith);
    assert(is_fifth_root((2093198 * 79228162514264337593543950336) as int, 11064657))
        by (nonlinear_arith);
    assert(5392 * 281474976710656 <= 2093198 * 11064657 * 65535 < (5392 + 1) * 281474976710656)
        by (nonlinear_arith);
    lemma_decode_at(81, 2093198, 11064657, 5392);
    assert(2137485 * 72374450625 <= (1000 * 82 + 14025) * (1000 * 82 + 14025) * 16777216
        < (2137485 + 1) * 72374450625) by (nonlinear_arith);
    assert(is_fifth_root((2137485 * 79228162514264337593543950336) as int, 11111086))
        by (nonlinear_arith);
    assert(5529 * 281474976710656 <= 2137485 * 11111086 * 65535 < (5529 + 1) * 281474976710656)
        by (nonlinear_arith);
    lemma_decode_at(82, 2137485, 11111086, 5529);
    assert(2182237 * 72374450625 <= (1000 * 83 + 14025) * (1000 * 83 + 14025) * 16777216
        < (2182237 + 1) * 72374450625) by (nonlinear_arith);
    assert(is_fifth_root((2182237 * 79228162514264337593543950336) as int, 11157227))
        by (nonlinear_arith);
    assert(5668 * 281474976710656 <= 2182237 * 11157227 * 65535 < (5668 + 1) * 281474976710656)
        by (nonlinear_arith);
    lemma_decode_at(83, 2182237, 11157227, 5668);
    assert(2227451 * 72374450625 <= (1000 * 84 + 14025) * (1000 * 84 + 14025) * 16777216
        < (2227451 + 1) * 72374450625) by (nonlinear_arith);
    assert(is_fifth_root((2227451 * 79228162514264337593543950336) as int, 11203082))
        by (nonlinear_arith);
    assert(5810 * 281474976710656 <= 2227451 * 11203082 * 65535 < (5810 + 1) * 281474976710656)
        by (nonlinear_arith);
    lemma_decode_at(84, 2227451, 11203082, 5810);
    assert(2273130 * 72374450625 <= (1000 * 85 + 14025) * (1000 * 85 + 14025) * 16777216
        < (2273130 + 1) * 72374450625) by (nonlinear_arith);
    assert(is_fifth_root((2273130 * 79228162514264337593543950336) as int, 11248659))
        by (nonlinear_arith);
    assert(5953 * 281474976710656 <= 2273130 * 11248659 * 65535 < (5953 + 1) * 281474976710656)
        by (nonlinear_arith);
    lemma_decode_at(85, 2273130, 11248659, 5953);
}

proof fn lemma_decode_values_15()
    ensures
        srgb_decode(86) == 6098,
        srgb_decode(87) == 6245,
        srgb_decode(88) == 6395,
        srgb_decode(89) == 6546,
        srgb_decode(90) == 6700,
{
    assert(2319272 * 72374450625 <= (1000 * 86 + 14025) * (1000 * 86 + 14025) * 16777216
        < (2319272 + 1) * 72374450625) by (nonlinear_arith);
    assert(is_fifth_root((2319272 * 79228162514264337593543950336) as int, 11293960))
        by (nonlinear_arith);
    assert(6098 * 281474976710656 <= 2319272 * 11293960 * 65535 < (6098 + 1) * 281474976710656)
        by (nonlinear_arith);
    lemma_decode_at(86, 2319272, 11293960, 6098);
    assert(2365877 * 72374450625 <= (1000 * 87 + 14025) * (1000 * 87 + 14025) * 16777216
        < (2365877 + 1) * 72374450625) by (nonlinear_arith);
    assert(is_fifth_root((2365877 * 79228162514264337593543950336) as int, 11338989))
        by (nonlinear_arith);
    assert(6245 * 281474976710656 <= 2365877 * 11338989 * 65535 < (6245 + 1) * 281474976710656)
        by (nonlinear_arith);
    lemma_decode_at(87, 2365877, 11338989, 6245);
    assert(2412947 * 72374450625 <= (1000 * 88 + 14025) * (1000 * 88 + 14025) * 16777216
        < (2412947 + 1) * 72374450625) by (nonlinear_arith);
    assert(is_fifth_root((2412947 * 79228162514264337593543950336) as int, 11383753))
        by (nonlinear_arith);
    assert(6395 * 281474976710656 <= 2412947 * 11383753 * 65535 < (6395 + 1) * 281474976710656)
        by (nonlinear_arith);
    lemma_decode_at(88, 2412947, 11383753, 6395);
    assert(2460480 * 72374450625 <= (1000 * 89 + 14025) * (1000 * 89 + 14025) * 16777216
        < (2460480 + 1) * 72374450625) by (nonlinear_arith);
    assert(is_fifth_root((2460480 * 79228162514264337593543950336) as int, 11428254))
        by (nonlinear_arith);
    assert(6546 * 281474976710656 <= 2460480 * 11428254 * 65535 < (6546 + 1) * 281474976710656)
        by (nonlinear_arith);
    lemma_decode_at(89, 2460480, 11428254, 6546);
    assert(2508476 * 72374450625 <= (1000 * 90 + 14025) * (1000 * 90 + 14025) * 16777216
        < (2508476 + 1) * 72374450625) by (nonlinear_arith);
    assert(is_fifth_root((2508476 * 79228162514264337593543950336) as int, 11472495))
        by (nonlinear_arith);
    assert(6700 * 281474976710656 <= 2508476 * 11472495 * 65535 < (6700 + 1) * 281474976710656)
        by (nonlinear_arith);
    lemma_decode_at(90, 2508476, 11472495, 6700);
}

proof fn lemma_decode_values_16()
    ensures
        srgb_decode(91) == 6856,
        srgb_decode(92) == 7013,
        srgb_decode(93) == 7173,
        srgb_decode(94) == 7335,
        srgb_decode(95) == 7499,
{
    assert(2556936 * 72374450625 <= (1000 * 91 + 14025) * (1000 * 91 + 14025) * 16777216
        < (2556936 + 1) * 72374450625) by (nonlinear_arith);
    assert(is_fifth_root((2556936 * 79228162514264337593543950336) as int, 11516483))
        by (nonlinear_arith);
    assert(6856 * 281474976710656 <= 2556936 * 11516483 * 65535 < (6856 + 1) * 281474976710656)
        by (nonlinear_arith);
    lemma_decode_at(91, 2556936, 11516483, 6856);
    assert(2605860 * 72374450625 <= (1000 * 92 + 14025) * (1000 * 92 + 14025) * 16777216
        < (2605860 + 1) * 72374450625) by (nonlinear_arith);
    assert(is_fifth_root((2605860 * 79228162514264337593543950336) as int, 11560220))
        by (nonlinear_arith);
    assert(7013 * 281474976710656 <= 2605860 * 11560220 * 65535 < (7013 + 1) * 281474976710656)
        by (nonlinear_arith);
    lemma_decode_at(92, 2605860, 11560220, 7013);
    assert(2655247 * 72374450625 <= (1000 * 93 + 14025) * (1000 * 93 + 14025) * 16777216
        < (2655247 + 1) * 72374450625) by (nonlinear_arith);
    assert(is_fifth_root((2655247 * 79228162514264337593543950336) as int, 11603710))
        by (nonlinear_arith);
    assert(7173 * 281474976710656 <= 2655247 * 11603710 * 65535 < (7173 + 1) * 281474976710656)
        by (nonlinear_arith);
    lemma_decode_at(93, 2655247, 11603710, 7173);
    assert(2705099 * 72374450625 <= (1000 * 94 + 14025) * (1000 * 94 + 14025) * 16777216
        < (2705099 + 1) * 72374450625) by (nonlinear_arith);
    assert(is_fifth_root((2705099 * 79228162514264337593543950336) as int, 11646959))
        by (nonlinear_arith);
    assert(7335 * 281474976710656 <= 2705099 * 11646959 * 65535 < (7335 + 1) * 281474976710656)
        by (nonlinear_arith);
    lemma_decode_at(94, 2705099, 11646959, 7335);
    assert(2755413 * 72374450625 <= (1000 * 95 + 14025) * (1000 * 95 + 14025) * 16777216
        < (2755413 + 1) * 72374450625) by (nonlinear_arith);
    assert(is_fifth_root((2755413 * 79228162514264337593543950336) as int, 11689966))
        by (nonlinear_arith);
    assert(7499 * 281474976710656 <= 2755413 * 11689966 * 65535 < (7499 + 1) * 281474976710656)
        by (nonlinear_arith);
    lemma_decode_at(95, 2755413, 11689966, 7499);
}

proof fn lemma_decode_values_17()
    ensures
        srgb_decode(96) == 7665,
        srgb_decode(97) == 7833,
        srgb_decode(98) == 8004,
        srgb_decode(99) == 8176,
        srgb_decode(100) == 8351,
{
    assert(2806191 * 72374450625 <= (1000 * 96 + 14025) * (1000 * 96 + 14025) * 16777216
        < (2806191 + 1) * 72374450625) by (nonlinear_arith);
    assert(is_fifth_root((2806191 * 79228162514264337593543950336) as int, 11732737))
        by (nonlinear_arith);
    assert(7665 * 281474976710656 <= 2806191 * 11732737 * 65535 < (7665 + 1) * 281474976710656)
        by (nonlinear_arith);
    lemma_decode_at(96, 2806191, 11732737, 7665);
    assert(2857433 * 72374450625 <= (1000 * 97 + 14025) * (1000 * 97 + 14025) * 16777216
        < (2857433 + 1) * 72374450625) by (nonlinear_arith);
    assert(is_fifth_root((2857433 * 79228162514264337593543950336) as int, 11775276))
        by (nonlinear_arith);
    assert(7833 * 281474976710656 <= 2857433 * 11775276 * 65535 < (7833 + 1) * 281474976710656)
        by (nonlinear_arith);
    lemma_decode_at(97, 2857433, 11775276, 7833);
    assert(2909139 * 72374450625 <= (1000 * 98 + 14025) * (1000 * 98 + 14025) * 16777216
        < (2909139 + 1) * 72374450625) by (nonlinear_arith);
    assert(is_fifth_root((2909139 * 79228162514264337593543950336) as int, 11817587))
        by (nonlinear_arith);
    assert(8004 * 281474976710656 <= 2909139 * 11817587 * 65535 < (8004 + 1) * 281474976710656)
        by (nonlinear_arith);
    lemma_decode_at(98, 2909139, 11817587, 8004);
    assert(2961308 * 72374450625 <= (1000 * 99 + 14025) * (1000 * 99 + 14025) * 16777216
        < (2961308 + 1) * 72374450625) by (nonlinear_arith);
    assert(is_fifth_root((2961308 * 79228162514264337593543950336) as int, 11859670))
        by (nonlinear_arith);
    assert(8176 * 281474976710656 <= 2961308 * 11859670 * 65535 < (8176 + 1) * 281474976710656)
        by (nonlinear_arith);
    lemma_decode_at(99, 2961308, 11859670, 8176);
    assert(3013941 * 72374450625 <= (1000 * 100 + 14025) * (1000 * 100 + 14025) * 16777216
        < (3013941 + 1) * 72374450625) by (nonlinear_arith);
    assert(is_fifth_root((3013941 * 79228162514264337593543950336) as int, 11901531))
        by (nonlinear_arith);
    assert(8351 * 281474976710656 <= 3013941 * 11901531 * 65535 < (8351 + 1) * 281474976710656)
        by (nonlinear_arith);
    lemma_decode_at(100, 3013941, 11901531, 8351);
}

proof fn lemma_decode_values_18()
    ensures
        srgb_decode(101) == 8528,
        srgb_decode(102) == 8707,
        srgb_decode(103) == 8888,
        srgb_decode(104) == 9072,
        srgb_decode(105) == 9257,
{
    assert(3067037 * 72374450625 <= (1000 * 101 + 14025) * (1000 * 101 + 14025) * 16777216
        < (3067037 + 1) * 72374450625) by (nonlinear_arith);
    assert(is_fifth_root((3067037 * 79228162514264337593543950336) as int, 11943172))
        by (nonlinear_arith);
    assert(8528 * 281474976710656 <= 3067037 * 11943172 * 65535 < (8528 + 1) * 281474976710656)
        by (nonlinear_arith);
    lemma_decode_at(101, 3067037, 11943172, 8528);
    assert(3120597 * 72374450625 <= (1000 * 102 + 14025) * (1000 * 102 + 14025) * 16777216
        < (3120597 + 1) * 72374450625) by (nonlinear_arith);
    assert(is_fifth_root((3120597 * 79228162514264337593543950336) as int, 11984597))
        by (nonlinear_arith);
    assert(8707 * 281474976710656 <= 3120597 * 11984597 * 65535 < (8707 + 1) * 281474976710656)
        by (nonlinear_arith);
    lemma_decode_at(102, 3120597, 11984597, 8707);
    assert(3174621 * 72374450625 <= (1000 * 103 + 14025) * (1000 * 103 + 14025) * 16777216
        < (3174621 + 1) * 72374450625) by (nonlinear_arith);
    assert(is_fifth_root((3174621 * 79228162514264337593543950336) as int, 12025808))
        by (nonlinear_arith);
    assert(8888 * 281474976710656 <= 3174621 * 12025808 * 65535 < (8888 + 1) * 281474976710656)
        by (nonlinear_arith);
    lemma_decode_at(103, 3174621, 12025808, 8888);
    assert(3229108 * 72374450625 <= (1000 * 104 + 14025) * (1000 * 104 + 14025) * 16777216
        < (3229108 + 1) * 72374450625) by (nonlinear_arith);
    assert(is_fifth_root((3229108 * 79228162514264337593543950336) as int, 12066808))
        by (nonlinear_arith);
    assert(9072 * 281474976710656 <= 3229108 * 12066808 * 65535 < (9072 + 1) * 281474976710656)
        by (nonlinear_arith);
    lemma_decode_at(104, 3229108, 12066808, 9072);
    assert(3284059 * 72374450625 <= (1000 * 105 + 14025) * (1000 * 105 + 14025) * 16777216
        < (3284059 + 1) * 72374450625) by (nonlinear_arith);
    assert(is_fifth_root((3284059 * 79228162514264337593543950336) as int, 12107601))
        by (nonlinear_arith);
    assert(9257 * 281474976710656 <= 3284059 * 12107601 * 65535 < (9257 + 1) * 281474976710656)
        by (nonlinear_arith);
    lemma_decode_at(105, 3284059, 12107601, 9257);
}

proof fn lemma_decode_values_19()
    ensures
        srgb_decode(106) == 9445,
        srgb_decode(107) == 9635,
        srgb_decode(108) == 9827,
        srgb_decode(109) == 10022,
        srgb_decode(110) == 10218,
{
    assert(3339473 * 72374450625 <= (1000 * 106 + 14025) * (1000 * 106 + 14025) * 16777216
        < (3339473 + 1) * 72374450625) by (nonlinear_arith);
    assert(is_fifth_root((3339473 * 79228162514264337593543950336) as int, 12148187))
        by (nonlinear_arith);
    assert(9445 * 281474976710656 <= 3339473 * 12148187 * 65535 < (9445 + 1) * 281474976710656)
        by (nonlinear_arith);
    lemma_decode_at(106, 3339473, 12148187, 9445);
    assert(3395351 * 72374450625 <= (1000 * 107 + 14025) * (1000 * 107 + 14025) * 16777216
        < (3395351 + 1) * 72374450625) by (nonlinear_arith);
    assert(is_fifth_root((3395351 * 79228162514264337593543950336) as int, 12188572))
        by (nonlinear_arith);
    assert(9635 * 281474976710656 <= 3395351 * 12188572 * 65535 < (9635 + 1) * 281474976710656)
        by (nonlinear_arith);
    lemma_decode_at(107, 3395351, 12188572, 9635);
    assert(3451693 * 72374450625 <= (1000 * 108 + 14025) * (1000 * 108 + 14025) * 16777216
        < (3451693 + 1) * 72374450625) by (nonlinear_arith);
    assert(is_fifth_root((3451693 * 79228162514264337593543950336) as int, 12228757))
        by (nonlinear_arith);
    assert(9827 * 281474976710656 <= 3451693 * 12228757 * 65535 < (9827 + 1) * 281474976710656)
        by (nonlinear_arith);
    lemma_decode_at(108, 3451693, 12228757, 9827);
    assert(3508499 * 72374450625 <= (1000 * 109 + 14025) * (1000 * 109 + 14025) * 16777216
        < (3508499 + 1) * 72374450625) by (nonlinear_arith);
    assert(is_fifth_root((3508499 * 79228162514264337593543950336) as int, 12268746))
        by (nonlinear_arith);
    assert(10022 * 281474976710656 <= 3508499 * 12268746 * 65535 < (10022 + 1) * 281474976710656)
        by (nonlinear_arith);
    lemma_decode_at(109, 3508499, 12268746, 10022);
    assert(3565768 * 72374450625 <= (1000 * 110 + 14025) * (1000 * 110 + 14025) * 16777216
        < (3565768 + 1) * 72374450625) by (nonlinear_arith);
    assert(is_fifth_root((3565768 * 79228162514264337593543950336) as int, 12308539))
        by (nonlinear_arith);
    assert(10218 * 281474976710656 <= 3565768 * 12308539 * 65535 < (10218 + 1) * 281474976710656)
        by (nonlinear_arith);
    lemma_decode_at(110, 3565768, 12308539, 10218);
}

proof fn lemma_decode_values_20()
    ensures
        srgb_decode(111) == 10417,
        srgb_decode(112) == 10618,
        srgb_decode(113) == 10821,
        srgb_decode(114) == 11027,
        srgb_decode(115) == 11235,
{
    assert(3623500 * 72374450625 <= (1000 * 111 + 14025) * (1000 * 111 + 14025) * 16777216
        < (3623500 + 1) * 72374450625) by (nonlinear_arith);
    assert(is_fifth_root((3623500 * 79228162514264337593543950336) as int, 12348140))
        by (nonlinear_arith);
    assert(10417 * 281474976710656 <= 3623500 * 12348140 * 65535 < (10417 + 1) * 281474976710656)
        by (nonlinear_arith);
    lemma_decode_at(111, 3623500, 12348140, 10417);
    assert(3681696 * 72374450625 <= (1000 * 112 + 14025) * (1000 * 112 + 14025) * 16777216
        < (3681696 + 1) * 72374450625) by (nonlinear_arith);
    assert(is_fifth_root((3681696 * 79228162514264337593543950336) as int, 12387552))
        by (nonlinear_arith);
    assert(10618 * 281474976710656 <= 3681696 * 12387552 * 65535 < (10618 + 1) * 281474976710656)
        by (nonlinear_arith);
    lemma_decode_at(112, 3681696, 12387552, 10618);
    assert(3740356 * 72374450625 <= (1000 * 113 + 14025) * (1000 * 113 + 14025) * 16777216
        < (3740356 + 1) * 72374450625) by (nonlinear_arith);
    assert(is_fifth_root((3740356 * 79228162514264337593543950336) as int, 12426776))
        by (nonlinear_arith);
    assert(10821 * 281474976710656 <= 3740356 * 12426776 * 65535 < (10821 + 1) * 281474976710656)
        by (nonlinear_arith);
    lemma_decode_at(113, 3740356, 12426776, 10821);
    assert(3799480 * 72374450625 <= (1000 * 114 + 14025) * (1000 * 114 + 14025) * 16777216
        < (3799480 + 1) * 72374450625) by (nonlinear_arith);
    assert(is_fifth_root((3799480 * 79228162514264337593543950336) as int, 12465817))
        by (nonlinear_arith);
    assert(11027 * 281474976710656 <= 3799480 * 12465817 * 65535 < (11027 + 1) * 281474976710656)
        by (nonlinear_arith);
    lemma_decode_at(114, 3799480, 12465817, 11027);
    assert(3859067 * 72374450625 <= (1000 * 115 + 14025) * (1000 * 115 + 14025) * 16777216
        < (3859067 + 1) * 72374450625) by (nonlinear_arith);
    assert(is_fifth_root((3859067 * 79228162514264337593543950336) as int, 12504674))
        by (nonlinear_arith);
    assert(11235 * 281474976710656 <= 3859067 * 12504674 * 65535 < (11235 + 1) * 281474976710656)
        by (nonlinear_arith);
    lemma_decode_at(115, 3859067, 12504674, 11235);
}

proof fn lemma_decode_values_21()
    ensures
        srgb_decode(116) == 11445,
        srgb_decode(117) == 11657,
        srgb_decode(118) == 11872,
        srgb_decode(119) == 12089,
        srgb_decode(120) == 12308,
{
    assert(3919118 * 72374450625 <= (1000 * 116 + 14025) * (1000 * 116 + 14025) * 16777216
        < (3919118 + 1) * 72374450625) by (nonlinear_arith);
    assert(is_fifth_root((3919118 * 79228162514264337593543950336) as int, 12543351))
        by (nonlinear_arith);
    assert(11445 * 281474976710656 <= 3919118 * 12543351 * 65535 < (11445 + 1) * 281474976710656)
        by (nonlinear_arith);
    lemma_decode_at(116, 3919118, 12543351, 11445);
    assert(3979632 * 72374450625 <= (1000 * 117 + 14025) * (1000 * 117 + 14025) * 16777216
        < (3979632 + 1) * 72374450625) by (nonlinear_arith);
    assert(is_fifth_root((3979632 * 79228162514264337593543950336) as int, 12581849))
        by (nonlinear_arith);
    assert(11657 * 281474976710656 <= 3979632 * 12581849 * 65535 < (11657 + 1) * 281474976710656)
        by (nonlinear_arith);
    lemma_decode_at(117, 3979632, 12581849, 11657);
    assert(4040610 * 72374450625 <= (1000 * 118 + 14025) * (1000 * 118 + 14025) * 16777216
        < (4040610 + 1) * 72374450625) by (nonlinear_arith);
    assert(is_fifth_root((4040610 * 79228162514264337593543950336) as int, 12620172))
        by (nonlinear_arith);
    assert(11872 * 281474976710656 <= 4040610 * 12620172 * 65535 < (11872 + 1) * 281474976710656)
        by (nonlinear_arith);
    lemma_decode_at(118, 4040610, 12620172, 11872);
    assert(4102051 * 72374450625 <= (1000 * 119 + 14025) * (1000 * 119 + 14025) * 16777216
        < (4102051 + 1) * 72374450625) by (nonlinear_arith);
    assert(is_fifth_root((4102051 * 79228162514264337593543950336) as int, 12658321))
        by (nonlinear_arith);
    assert(12089 * 281474976710656 <= 4102051 * 12658321 * 65535 < (12089 + 1) * 281474976710656)
        by (nonlinear_arith);
    lemma_decode_at(119, 4102051, 12658321, 12089);
    assert(4163957 * 72374450625 <= (1000 * 120 + 14025) * (1000 * 120 + 14025) * 16777216
        < (4163957 + 1) * 72374450625) by (nonlinear_arith);
    assert(is_fifth_root((4163957 * 79228162514264337593543950336) as int, 12696299))
        by (nonlinear_arith);
    assert(12308 * 281474976710656 <= 4163957 * 12696299 * 65535 < (12308 + 1) * 281474976710656)
        by (nonlinear_arith);
    lemma_decode_at(120, 4163957, 12696299, 12308);
}

proof fn lemma_decode_values_22()
    ensures
        srgb_decode(121) == 12530,
        srgb_decode(122) == 12754,
        srgb_decode(123) == 12980,
        srgb_decode(124) == 13208,
        srgb_decode(125) == 13439,
{
    assert(4226325 * 72374450625 <= (1000 * 121 + 14025) * (1000 * 121 + 14025) * 16777216
        < (4226325 + 1) * 72374450625) by (nonlinear_arith);
    assert(is_fifth_root((4226325 * 79228162514264337593543950336) as int, 12734107))
        by (nonlinear_arith);
    assert(12530 * 281474976710656 <= 4226325 * 12734107 * 65535 < (12530 + 1) * 281474976710656)
        by (nonlinear_arith);
    lemma_decode_at(121, 4226325, 12734107, 12530);
    assert(4289158 * 72374450625 <= (1000 * 122 + 14025) * (1000 * 122 + 14025) * 16777216
        < (4289158 + 1) * 72374450625) by (nonlinear_arith);
    assert(is_fifth_root((4289158 * 79228162514264337593543950336) as int, 12771747))
        by (nonlinear_arith);
    assert(12754 * 281474976710656 <= 4289158 * 12771747 * 65535 < (12754 + 1) * 281474976710656)
        by (nonlinear_arith);
    lemma_decode_at(122, 4289158, 12771747, 12754);
    assert(4352454 * 72374450625 <= (1000 * 123 + 14025) * (1000 * 123 + 14025) * 16777216
        < (4352454 + 1) * 72374450625) by (nonlinear_arith);
    assert(is_fifth_root((4352454 * 79228162514264337593543950336) as int, 12809222))
        by (nonlinear_arith);
    assert(12980 * 281474976710656 <= 4352454 * 12809222 * 65535 < (12980 + 1) * 281474976710656)
        by (nonlinear_arith);
    lemma_decode_at(123, 4352454, 12809222, 12980);
    assert(4416214 * 72374450625 <= (1000 * 124 + 14025) * (1000 * 124 + 14025) * 16777216
        < (4416214 + 1) * 72374450625) by (nonlinear_arith);
    assert(is_fifth_root((4416214 * 79228162514264337593543950336) as int, 12846533))
        by (nonlinear_arith);
    assert(13208 * 281474976710656 <= 4416214 * 12846533 * 65535 < (13208 + 1) * 281474976710656)
        by (nonlinear_arith);
    lemma_decode_at(124, 4416214, 12846533, 13208);
    assert(4480437 * 72374450625 <= (1000 * 125 + 14025) * (1000 * 125 + 14025) * 16777216
        < (4480437 + 1) * 72374450625) by (nonlinear_arith);
    assert(is_fifth_root((4480437 * 79228162514264337593543950336) as int, 12883681))
        by (nonlinear_arith);
    assert(13439 * 281474976710656 <= 4480437 * 12883681 * 65535 < (13439 + 1) * 281474976710656)
        by (nonlinear_arith);
    lemma_decode_at(125, 4480437, 12883681, 13439);
}

proof fn lemma_decode_values_23()
    ensures
        srgb_decode(126) == 13673,
        srgb_decode(127) == 13908,
        srgb_decode(128) == 14146,
        srgb_decode(129) == 14386,
        srgb_decode(130) == 14629,
{
    assert(4545124 * 72374450625 <= (1000 * 126 + 14025) * (1000 * 126 + 14025) * 16777216
        < (4545124 + 1) * 72374450625) by (nonlinear_arith);
    assert(is_fifth_root((4545124 * 79228162514264337593543950336) as int, 12920670))
        by (nonlinear_arith);
    assert(13673 * 281474976710656 <= 4545124 * 12920670 * 65535 < (13673 + 1) * 281474976710656)
        by (nonlinear_arith);
    lemma_decode_at(126, 4545124, 12920670, 13673);
    assert(4610275 * 72374450625 <= (1000 * 127 + 14025) * (1000 * 127 + 14025) * 16777216
        < (4610275 + 1) * 72374450625) by (nonlinear_arith);
    assert(is_fifth_root((4610275 * 79228162514264337593543950336) as int, 12957501))
        by (nonlinear_arith);
    assert(13908 * 281474976710656 <= 4610275 * 12957501 * 65535 < (13908 + 1) * 281474976710656)
        by (nonlinear_arith);
    lemma_decode_at(127, 4610275, 12957501, 13908);
    assert(4675889 * 72374450625 <= (1000 * 128 + 14025) * (1000 * 128 + 14025) * 16777216
        < (4675889 + 1) * 72374450625) by (nonlinear_arith);
    assert(is_fifth_root((4675889 * 79228162514264337593543950336) as int, 12994176))
        by (nonlinear_arith);
    assert(14146 * 281474976710656 <= 4675889 * 12994176 * 65535 < (14146 + 1) * 281474976710656)
        by (nonlinear_arith);
    lemma_decode_at(128, 4675889, 12994176, 14146);
    assert(4741967 * 72374450625 <= (1000 * 129 + 14025) * (1000 * 129 + 14025) * 16777216
        < (4741967 + 1) * 72374450625) by (nonlinear_arith);
    assert(is_fifth_root((4741967 * 79228162514264337593543950336) as int, 13030696))
        by (nonlinear_arith);
    assert(14386 * 281474976710656 <= 4741967 * 13030696 * 65535 < (14386 + 1) * 281474976710656)
        by (nonlinear_arith);
    lemma_decode_at(129, 4741967, 13030696, 14386);
    assert(4808508 * 72374450625 <= (1000 * 130 + 14025) * (1000 * 130 + 14025) * 16777216
        < (4808508 + 1) * 72374450625) by (nonlinear_arith);
    assert(is_fifth_root((4808508 * 79228162514264337593543950336) as int, 13067063))
        by (nonlinear_arith);
    assert(14629 * 281474976710656 <= 4808508 * 13067063 * 65535 < (14629 + 1) * 281474976710656)
        by (nonlinear_arith);
    lemma_decode_at(130, 4808508, 13067063, 14629);
}

proof fn lemma_decode_values_24()
    ensures
        srgb_decode(131) == 14874,
        srgb_decode(132) == 15121,
        srgb_decode(133) == 15371,
        srgb_decode(134) == 15623,
        srgb_decode(135) == 15877,
{
    assert(4875513 * 72374450625 <= (1000 * 131 + 14025) * (1000 * 131 + 14025) * 16777216
        < (4875513 + 1) * 72374450625) by (nonlinear_arith);
    assert(is_fifth_root((4875513 * 79228162514264337593543950336) as int, 13103278))
        by (nonlinear_arith);
    assert(14874 * 281474976710656 <= 4875513 * 13103278 * 65535 < (14874 + 1) * 281474976710656)
        by (nonlinear_arith);
    lemma_decode_at(131, 4875513, 13103278, 14874);
    assert(4942982 * 72374450625 <= (1000 * 132 + 14025) * (1000 * 132 + 14025) * 16777216
        < (4942982 + 1) * 72374450625) by (nonlinear_arith);
    assert(is_fifth_root((4942982 * 79228162514264337593543950336) as int, 13139345))
        by (nonlinear_arith);
    assert(15121 * 281474976710656 <= 4942982 * 13139345 * 65535 < (15121 + 1) * 281474976710656)
        by (nonlinear_arith);
    lemma_decode_at(132, 4942982, 13139345, 15121);
    assert(5010914 * 72374450625 <= (1000 * 133 + 14025) * (1000 * 133 + 14025) * 16777216
        < (5010914 + 1) * 72374450625) by (nonlinear_arith);
    assert(is_fifth_root((5010914 * 79228162514264337593543950336) as int, 13175263))
        by (nonlinear_arith);
    assert(15371 * 281474976710656 <= 5010914 * 13175263 * 65535 < (15371 + 1) * 281474976710656)
        by (nonlinear_arith);
    lemma_decode_at(133, 5010914, 13175263, 15371);
    assert(5079310 * 72374450625 <= (1000 * 134 + 14025) * (1000 * 134 + 14025) * 16777216
        < (5079310 + 1) * 72374450625) by (nonlinear_arith);
    assert(is_fifth_root((5079310 * 79228162514264337593543950336) as int, 13211035))
        by (nonlinear_arith);
    assert(15623 * 281474976710656 <= 5079310 * 13211035 * 65535 < (15623 + 1) * 281474976710656)
        by (nonlinear_arith);
    lemma_decode_at(134, 5079310, 13211035, 15623);
    assert(5148169 * 72374450625 <= (1000 * 135 + 14025) * (1000 * 135 + 14025) * 16777216
        < (5148169 + 1) * 72374450625) by (nonlinear_arith);
    assert(is_fifth_root((5148169 * 79228162514264337593543950336) as int, 13246662))
        by (nonlinear_arith);
    assert(15877 * 281474976710656 <= 5148169 * 13246662 * 65535 < (15877 + 1) * 281474976710656)
        by (nonlinear_arith);
    lemma_decode_at(135, 5148169, 13246662, 15877);
}

proof fn lemma_decode_values_25()
    ensures
        srgb_decode(136) == 16134,
        srgb_decode(137) == 16394,
        srgb_decode(138) == 16655,
        srgb_decode(139) == 16920,
        srgb_decode(140) == 17186,
{
    assert(5217493 * 72374450625 <= (1000 * 136 + 14025) * (1000 * 136 + 14025) * 16777216
        < (5217493 + 1) * 72374450625) by (nonlinear_arith);
    assert(is_fifth_root((5217493 * 79228162514264337593543950336) as int, 13282147))
        by (nonlinear_arith);
    assert(16134 * 281474976710656 <= 5217493 * 13282147 * 65535 < (16134 + 1) * 281474976710656)
        by (nonlinear_arith);
    lemma_decode_at(136, 5217493, 13282147, 16134);
    assert(5287279 * 72374450625 <= (1000 * 137 + 14025) * (1000 * 137 + 14025) * 16777216
        < (5287279 + 1) * 72374450625) by (nonlinear_arith);
    assert(is_fifth_root((5287279 * 79228162514264337593543950336) as int, 13317489))
        by (nonlinear_arith);
    assert(16394 * 281474976710656 <= 5287279 * 13317489 * 65535 < (16394 + 1) * 281474976710656)
        by (nonlinear_arith);
    lemma_decode_at(137, 5287279, 13317489, 16394);
    assert(5357530 * 72374450625 <= (1000 * 138 + 14025) * (1000 * 138 + 14025) * 16777216
        < (5357530 + 1) * 72374450625) by (nonlinear_arith);
    assert(is_fifth_root((5357530 * 79228162514264337593543950336) as int, 13352692))
        by (nonlinear_arith);
    assert(16655 * 281474976710656 <= 5357530 * 13352692 * 65535 < (16655 + 1) * 281474976710656)
        by (nonlinear_arith);
    lemma_decode_at(138, 5357530, 13352692, 16655);
    assert(5428244 * 72374450625 <= (1000 * 139 + 14025) * (1000 * 139 + 14025) * 16777216
        < (5428244 + 1) * 72374450625) by (nonlinear_arith);
    assert(is_fifth_root((5428244 * 79228162514264337593543950336) as int, 13387756))
        by (nonlinear_arith);
    assert(16920 * 281474976710656 <= 5428244 * 13387756 * 65535 < (16920 + 1) * 281474976710656)
        by (nonlinear_arith);
    lemma_decode_at(139, 5428244, 13387756, 16920);
    assert(5499422 * 72374450625 <= (1000 * 140 + 14025) * (1000 * 140 + 14025) * 16777216
        < (5499422 + 1) * 72374450625) by (nonlinear_arith);
    assert(is_fifth_root((5499422 * 79228162514264337593543950336) as int, 13422682))
        by (nonlinear_arith);
    assert(17186 * 281474976710656 <= 5499422 * 13422682 * 65535 < (17186 + 1) * 281474976710656)
        by (nonlinear_arith);
    lemma_decode_at(140, 5499422, 13422682, 17186);
}

proof fn lemma_decode_values_26()
    ensures
        srgb_decode(141) == 17455,
        srgb_decode(142) == 17727,
        srgb_decode(143) == 18000,
        srgb_decode(144) == 18277,
        srgb_decode(145) == 18556,
{
    assert(5571063 * 72374450625 <= (1000 * 141 + 14025) * (1000 * 141 + 14025) * 16777216
        < (5571063 + 1) * 72374450625) by (nonlinear_arith);
    assert(is_fifth_root((5571063 * 79228162514264337593543950336) as int, 13457473))
        by (nonlinear_arith);
    assert(17455 * 281474976710656 <= 5571063 * 13457473 * 65535 < (17455 + 1) * 281474976710656)
        by (nonlinear_arith);
    lemma_decode_at(141, 5571063, 13457473, 17455);
    assert(5643168 * 72374450625 <= (1000 * 142 + 14025) * (1000 * 142 + 14025) * 16777216
        < (5643168 + 1) * 72374450625) by (nonlinear_arith);
    assert(is_fifth_root((5643168 * 79228162514264337593543950336) as int, 13492129))
        by (nonlinear_arith);
    assert(17727 * 281474976710656 <= 5643168 * 13492129 * 65535 < (17727 + 1) * 281474976710656)
        by (nonlinear_arith);
    lemma_decode_at(142, 5643168, 13492129, 17727);
    assert(5715736 * 72374450625 <= (1000 * 143 + 14025) * (1000 * 143 + 14025) * 16777216
        < (5715736 + 1) * 72374450625) by (nonlinear_arith);
    assert(is_fifth_root((5715736 * 79228162514264337593543950336) as int, 13526652))
        by (nonlinear_arith);
    assert(18000 * 281474976710656 <= 5715736 * 13526652 * 65535 < (18000 + 1) * 281474976710656)
        by (nonlinear_arith);
    lemma_decode_at(143, 5715736, 13526652, 18000);
    assert(5788768 * 72374450625 <= (1000 * 144 + 14025) * (1000 * 144 + 14025) * 16777216
        < (5788768 + 1) * 72374450625) by (nonlinear_arith);
    assert(is_fifth_root((5788768 * 79228162514264337593543950336) as int, 13561044))
        by (nonlinear_arith);
    assert(18277 * 281474976710656 <= 5788768 * 13561044 * 65535 < (18277 + 1) * 281474976710656)
        by (nonlinear_arith);
    lemma_decode_at(144, 5788768, 13561044, 18277);
    assert(5862264 * 72374450625 <= (1000 * 145 + 14025) * (1000 * 145 + 14025) * 16777216
        < (5862264 + 1) * 72374450625) by (nonlinear_arith);
    assert(is_fifth_root((5862264 * 79228162514264337593543950336) as int, 13595306))
        by (nonlinear_arith);
    assert(18556 * 281474976710656 <= 5862264 * 13595306 * 65535 < (18556 + 1) * 281474976710656)
        by (nonlinear_arith);
    lemma_decode_at(145, 5862264, 13595306, 18556);
}

proof fn lemma_decode_values_27()
    ensures
        srgb_decode(146) == 18837,
        srgb_decode(147) == 19121,
        srgb_decode(148) == 19407,
        srgb_decode(149) == 19696,
        srgb_decode(150) == 19987,
{
    assert(5936224 * 72374450625 <= (1000 * 146 + 14025) * (1000 * 146 + 14025) * 16777216
        < (5936224 + 1) * 72374450625) by (nonlinear_arith);
    assert(is_fifth_root((5936224 * 79228162514264337593543950336) as int, 13629438))
        by (nonlinear_arith);
    assert(18837 * 281474976710656 <= 5936224 * 13629438 * 65535 < (18837 + 1) * 281474976710656)
        by (nonlinear_arith);
    lemma_decode_at(146, 5936224, 13629438, 18837);
    assert(6010647 * 72374450625 <= (1000 * 147 + 14025) * (1000 * 147 + 14025) * 16777216
        < (6010647 + 1) * 72374450625) by (nonlinear_arith);
    assert(is_fifth_root((6010647 * 79228162514264337593543950336) as int, 13663443))
        by (nonlinear_arith);
    assert(19121 * 281474976710656 <= 6010647 * 13663443 * 65535 < (19121 + 1) * 281474976710656)
        by (nonlinear_arith);
    lemma_decode_at(147, 6010647, 13663443, 19121);
    assert(6085533 * 72374450625 <= (1000 * 148 + 14025) * (1000 * 148 + 14025) * 16777216
        < (6085533 + 1) * 72374450625) by (nonlinear_arith);
    assert(is_fifth_root((6085533 * 79228162514264337593543950336) as int, 13697321))
        by (nonlinear_arith);
    assert(19407 * 281474976710656 <= 6085533 * 13697321 * 65535 < (19407 + 1) * 281474976710656)
        by (nonlinear_arith);
    lemma_decode_at(148, 6085533, 13697321, 19407);
    assert(6160884 * 72374450625 <= (1000 * 149 + 14025) * (1000 * 149 + 14025) * 16777216
        < (6160884 + 1) * 72374450625) by (nonlinear_arith);
    assert(is_fifth_root((6160884 * 79228162514264337593543950336) as int, 13731074))
        by (nonlinear_arith);
    assert(19696 * 281474976710656 <= 6160884 * 13731074 * 65535 < (19696 + 1) * 281474976710656)
        by (nonlinear_arith);
    lemma_decode_at(149, 6160884, 13731074, 19696);
    assert(6236697 * 72374450625 <= (1000 * 150 + 14025) * (1000 * 150 + 14025) * 16777216
        < (6236697 + 1) * 72374450625) by (nonlinear_arith);
    assert(is_fifth_root((6236697 * 79228162514264337593543950336) as int, 13764703))
        by (nonlinear_arith);
    assert(19987 * 281474976710656 <= 6236697 * 13764703 * 65535 < (19987 + 1) * 281474976710656)
        by (nonlinear_arith);
    lemma_decode_at(150, 6236697, 13764703, 19987);
}

proof fn lemma_decode_values_28()
    ensures
        srgb_decode(151) == 20281,
        srgb_decode(152) == 20577,
        srgb_decode(153) == 20875,
        srgb_decode(154) == 21177,
        srgb_decode(155) == 21480,
{
    assert(6312975 * 72374450625 <= (1000 * 151 + 14025) * (1000 * 151 + 14025) * 16777216
        < (6312975 + 1) * 72374450625) by (nonlinear_arith);
    assert(is_fifth_root((6312975 * 79228162514264337593543950336) as int, 13798209))
        by (nonlinear_arith);
    assert(20281 * 281474976710656 <= 6312975 * 13798209 * 65535 < (20281 + 1) * 281474976710656)
        by (nonlinear_arith);
    lemma_decode_at(151, 6312975, 13798209, 20281);
    assert(6389716 * 72374450625 <= (1000 * 152 + 14025) * (1000 * 152 + 14025) * 16777216
        < (6389716 + 1) * 72374450625) by (nonlinear_arith);
    assert(is_fifth_root((6389716 * 79228162514264337593543950336) as int, 13831593))
        by (nonlinear_arith);
    assert(20577 * 281474976710656 <= 6389716 * 13831593 * 65535 < (20577 + 1) * 281474976710656)
        by (nonlinear_arith);
    lemma_decode_at(152, 6389716, 13831593, 20577);
    assert(6466921 * 72374450625 <= (1000 * 153 + 14025) * (1000 * 153 + 14025) * 16777216
        < (6466921 + 1) * 72374450625) by (nonlinear_arith);
    assert(is_fifth_root((6466921 * 79228162514264337593543950336) as int, 13864858))
        by (nonlinear_arith);
    assert(20875 * 281474976710656 <= 6466921 * 13864858 * 65535 < (20875 + 1) * 281474976710656)
        by (nonlinear_arith);
    lemma_decode_at(153, 6466921, 13864858, 20875);
    assert(6544589 * 72374450625 <= (1000 * 154 + 14025) * (1000 * 154 + 14025) * 16777216
        < (6544589 + 1) * 72374450625) by (nonlinear_arith);
    assert(is_fifth_root((6544589 * 79228162514264337593543950336) as int, 13898002))
        by (nonlinear_arith);
    assert(21177 * 281474976710656 <= 6544589 * 13898002 * 65535 < (21177 + 1) * 281474976710656)
        by (nonlinear_arith);
    lemma_decode_at(154, 6544589, 13898002, 21177);
    assert(6622721 * 72374450625 <= (1000 * 155 + 14025) * (1000 * 155 + 14025) * 16777216
        < (6622721 + 1) * 72374450625) by (nonlinear_arith);
    assert(is_fifth_root((6622721 * 79228162514264337593543950336) as int, 13931029))
        by (nonlinear_arith);
    assert(21480 * 281474976710656 <= 6622721 * 13931029 * 65535 < (21480 + 1) * 281474976710656)
        by (nonlinear_arith);
    lemma_decode_at(155, 6622721, 13931029, 21480);
}

proof fn lemma_decode_values_29()
    ensures
        srgb_decode(156) == 21787,
        srgb_decode(157) == 22096,
        srgb_decode(158) == 22407,
        srgb_decode(159) == 22721,
        srgb_decode(160) == 23037,
{
    assert(6701317 * 72374450625 <= (1000 * 156 + 14025) * (1000 * 156 + 14025) * 16777216
        < (6701317 + 1) * 72374450625) by (nonlinear_arith);
    assert(is_fifth_root((6701317 * 79228162514264337593543950336) as int, 13963939))
        by (nonlinear_arith);
    assert(21787 * 281474976710656 <= 6701317 * 13963939 * 65535 < (21787 + 1) * 281474976710656)
        by (nonlinear_arith);
    lemma_decode_at(156, 6701317, 13963939, 21787);
    assert(6780376 * 72374450625 <= (1000 * 157 + 14025) * (1000 * 157 + 14025) * 16777216
        < (6780376 + 1) * 72374450625) by (nonlinear_arith);
    assert(is_fifth_root((6780376 * 79228162514264337593543950336) as int, 13996732))
        by (nonlinear_arith);
    assert(22096 * 281474976710656 <= 6780376 * 13996732 * 65535 < (22096 + 1) * 281474976710656)
        by (nonlinear_arith);
    lemma_decode_at(157, 6780376, 13996732, 22096);
    assert(6859899 * 72374450625 <= (1000 * 158 + 14025) * (1000 * 158 + 14025) * 16777216
        < (6859899 + 1) * 72374450625) by (nonlinear_arith);
    assert(is_fifth_root((6859899 * 79228162514264337593543950336) as int, 14029411))
        by (nonlinear_arith);
    assert(22407 * 281474976710656 <= 6859899 * 14029411 * 65535 < (22407 + 1) * 281474976710656)
        by (nonlinear_arith);
    lemma_decode_at(158, 6859899, 14029411, 22407);
    assert(6939885 * 72374450625 <= (1000 * 159 + 14025) * (1000 * 159 + 14025) * 16777216
        < (6939885 + 1) * 72374450625) by (nonlinear_arith);
    assert(is_fifth_root((6939885 * 79228162514264337593543950336) as int, 14061976))
        by (nonlinear_arith);
    assert(22721 * 281474976710656 <= 6939885 * 14061976 * 65535 < (22721 + 1) * 281474976710656)
        by (nonlinear_arith);
    lemma_decode_at(159, 6939885, 14061976, 22721);
    assert(7020336 * 72374450625 <= (1000 * 160 + 14025) * (1000 * 160 + 14025) * 16777216
        < (7020336 + 1) * 72374450625) by (nonlinear_arith);
    assert(is_fifth_root((7020336 * 79228162514264337593543950336) as int, 14094429))
        by (nonlinear_arith);
    assert(23037 * 281474976710656 <= 7020336 * 14094429 * 65535 < (23037 + 1) * 281474976710656)
        by (nonlinear_arith);
    lemma_decode_at(160, 7020336, 14094429, 23037);
}

proof fn lemma_decode_values_30()
    ensures
        srgb_decode(161) == 23356,
        srgb_decode(162) == 23678,
        srgb_decode(163) == 24002,
        srgb_decode(164) == 24329,
        srgb_decode(165) == 24658,
{
    assert(7101249 * 72374450625 <= (1000 * 161 + 14025) * (1000 * 161 + 14025) * 16777216
        < (7101249 + 1) * 72374450625) by (nonlinear_arith);
    assert(is_fifth_root((7101249 * 79228162514264337593543950336) as int, 14126769))
        by (nonlinear_arith);
    assert(23356 * 281474976710656 <= 7101249 * 14126769 * 65535 < (23356 + 1) * 281474976710656)
        by (nonlinear_arith);
    lemma_decode_at(161, 7101249, 14126769, 23356);
    assert(7182627 * 72374450625 <= (1000 * 162 + 14025) * (1000 * 162 + 14025) * 16777216
        < (7182627 + 1) * 72374450625) by (nonlinear_arith);
    assert(is_fifth_root((7182627 * 79228162514264337593543950336) as int, 14158999))
        by (nonlinear_arith);
    assert(23678 * 281474976710656 <= 7182627 * 14158999 * 65535 < (23678 + 1) * 281474976710656)
        by (nonlinear_arith);
    lemma_decode_at(162, 7182627, 14158999, 23678);
    assert(7264468 * 72374450625 <= (1000 * 163 + 14025) * (1000 * 163 + 14025) * 16777216
        < (7264468 + 1) * 72374450625) by (nonlinear_arith);
    assert(is_fifth_root((7264468 * 79228162514264337593543950336) as int, 14191120))
        by (nonlinear_arith);
    assert(24002 * 281474976710656 <= 7264468 * 14191120 * 65535 < (24002 + 1) * 281474976710656)
        by (nonlinear_arith);
    lemma_decode_at(163, 7264468, 14191120, 24002);
    assert(7346772 * 72374450625 <= (1000 * 164 + 14025) * (1000 * 164 + 14025) * 16777216
        < (7346772 + 1) * 72374450625) by (nonlinear_arith);
    assert(is_fifth_root((7346772 * 79228162514264337593543950336) as int, 14223131))
        by (nonlinear_arith);
    assert(24329 * 281474976710656 <= 7346772 * 14223131 * 65535 < (24329 + 1) * 281474976710656)
        by (nonlinear_arith);
    lemma_decode_at(164, 7346772, 14223131, 24329);
    assert(7429540 * 72374450625 <= (1000 * 165 + 14025) * (1000 * 165 + 14025) * 16777216
        < (7429540 + 1) * 72374450625) by (nonlinear_arith);
    assert(is_fifth_root((7429540 * 79228162514264337593543950336) as int, 14255035))
        by (nonlinear_arith);
    assert(24658 * 281474976710656 <= 7429540 * 14255035 * 65535 < (24658 + 1) * 281474976710656)
        by (nonlinear_arith);
    lemma_decode_at(165, 7429540, 14255035, 24658);
}

proof fn lemma_decode_values_31()
    ensures
        srgb_decode(166) == 24990,
        srgb_decode(167) == 25324,
        srgb_decode(168) == 25661,
        srgb_decode(169) == 26001,
        srgb_decode(170) == 26343,
{
    assert(7512772 * 72374450625 <= (1000 * 166 + 14025) * (1000 * 166 + 14025) * 16777216
        < (7512772 + 1) * 72374450625) by (nonlinear_arith);
    assert(is_fifth_root((7512772 * 79228162514264337593543950336) as int, 14286832))
        by (nonlinear_arith);
    assert(24990 * 281474976710656 <= 7512772 * 14286832 * 65535 < (24990 + 1) * 281474976710656)
        by (nonlinear_arith);
    lemma_decode_at(166, 7512772, 14286832, 24990);
    assert(7596468 * 72374450625 <= (1000 * 167 + 14025) * (1000 * 167 + 14025) * 16777216
        < (7596468 + 1) * 72374450625) by (nonlinear_arith);
    assert(is_fifth_root((7596468 * 79228162514264337593543950336) as int, 14318524))
        by (nonlinear_arith);
    assert(25324 * 281474976710656 <= 7596468 * 14318524 * 65535 < (25324 + 1) * 281474976710656)
        by (nonlinear_arith);
    lemma_decode_at(167, 7596468, 14318524, 25324);
    assert(7680627 * 72374450625 <= (1000 * 168 + 14025) * (1000 * 168 + 14025) * 16777216
        < (7680627 + 1) * 72374450625) by (nonlinear_arith);
    assert(is_fifth_root((7680627 * 79228162514264337593543950336) as int, 14350110))
        by (nonlinear_arith);
    assert(25661 * 281474976710656 <= 7680627 * 14350110 * 65535 < (25661 + 1) * 281474976710656)
        by (nonlinear_arith);
    lemma_decode_at(168, 7680627, 14350110, 25661);
    assert(7765250 * 72374450625 <= (1000 * 169 + 14025) * (1000 * 169 + 14025) * 16777216
        < (7765250 + 1) * 72374450625) by (nonlinear_arith);
    assert(is_fifth_root((7765250 * 79228162514264337593543950336) as int, 14381593))
        by (nonlinear_arith);
    assert(26001 * 281474976710656 <= 7765250 * 14381593 * 65535 < (26001 + 1) * 281474976710656)
        by (nonlinear_arith);
    lemma_decode_at(169, 7765250, 14381593, 26001);
    assert(7850336 * 72374450625 <= (1000 * 170 + 14025) * (1000 * 170 + 14025) * 16777216
        < (7850336 + 1) * 72374450625) by (nonlinear_arith);
    assert(is_fifth_root((7850336 * 79228162514264337593543950336) as int, 14412972))
        by (nonlinear_arith);
    assert(26343 * 281474976710656 <= 7850336 * 14412972 * 65535 < (26343 + 1) * 281474976710656)
        by (nonlinear_arith);
    lemma_decode_at(170, 7850336, 14412972, 26343);
}

proof fn lemma_decode_values_32()
    ensures
        srgb_decode(171) == 26688,
        srgb_decode(172) == 27035,
        srgb_decode(173) == 27386,
        srgb_decode(174) == 27738,
        srgb_decode(175) == 28094,
{
    assert(7935886 * 72374450625 <= (1000 * 171 + 14025) * (1000 * 171 + 14025) * 16777216
        < (7935886 + 1) * 72374450625) by (nonlinear_arith);
    assert(is_fifth_root((7935886 * 79228162514264337593543950336) as int, 14444250))
        by (nonlinear_arith);
    assert(26688 * 281474976710656 <= 7935886 * 14444250 * 65535 < (26688 + 1) * 281474976710656)
        by (nonlinear_arith);
    lemma_decode_at(171, 7935886, 14444250, 26688);
    assert(8021899 * 72374450625 <= (1000 * 172 + 14025) * (1000 * 172 + 14025) * 16777216
        < (8021899 + 1) * 72374450625) by (nonlinear_arith);
    assert(is_fifth_root((8021899 * 79228162514264337593543950336) as int, 14475426))
        by (nonlinear_arith);
    assert(27035 * 281474976710656 <= 8021899 * 14475426 * 65535 < (27035 + 1) * 281474976710656)
        by (nonlinear_arith);
    lemma_decode_at(172, 8021899, 14475426, 27035);
    assert(8108377 * 72374450625 <= (1000 * 173 + 14025) * (1000 * 173 + 14025) * 16777216
        < (8108377 + 1) * 72374450625) by (nonlinear_arith);
    assert(is_fifth_root((8108377 * 79228162514264337593543950336) as int, 14506502))
        by (nonlinear_arith);
    assert(27386 * 281474976710656 <= 8108377 * 14506502 * 65535 < (27386 + 1) * 281474976710656)
        by (nonlinear_arith);
    lemma_decode_at(173, 8108377, 14506502, 27386);
    assert(8195318 * 72374450625 <= (1000 * 174 + 14025) * (1000 * 174 + 14025) * 16777216
        < (8195318 + 1) * 72374450625) by (nonlinear_arith);
    assert(is_fifth_root((8195318 * 79228162514264337593543950336) as int, 14537478))
        by (nonlinear_arith);
    assert(27738 * 281474976710656 <= 8195318 * 14537478 * 65535 < (27738 + 1) * 281474976710656)
        by (nonlinear_arith);
    lemma_decode_at(174, 8195318, 14537478, 27738);
    assert(8282722 * 72374450625 <= (1000 * 175 + 14025) * (1000 * 175 + 14025) * 16777216
        < (8282722 + 1) * 72374450625) by (nonlinear_arith);
    assert(is_fifth_root((8282722 * 79228162514264337593543950336) as int, 14568355))
        by (nonlinear_arith);
    assert(28094 * 281474976710656 <= 8282722 * 14568355 * 65535 < (28094 + 1) * 281474976710656)
        by (nonlinear_arith);
    lemma_decode_at(175, 8282722, 14568355, 28094);
}

proof fn lemma_decode_values_33()
    ensures
        srgb_decode(176) == 28452,
        srgb_decode(177) == 28812,
        srgb_decode(178) == 29176,
        srgb_decode(179) == 29542,
        srgb_decode(180) == 29910,
{
    assert(8370590 * 72374450625 <= (1000 * 176 + 14025) * (1000 * 176 + 14025) * 16777216
        < (8370590 + 1) * 72374450625) by (nonlinear_arith);
    assert(is_fifth_root((8370590 * 79228162514264337593543950336) as int, 14599135))
        by (nonlinear_arith);
    assert(28452 * 281474976710656 <= 8370590 * 14599135 * 65535 < (28452 + 1) * 281474976710656)
        by (nonlinear_arith);
    lemma_decode_at(176, 8370590, 14599135, 28452);
    assert(8458922 * 72374450625 <= (1000 * 177 + 14025) * (1000 * 177 + 14025) * 16777216
        < (8458922 + 1) * 72374450625) by (nonlinear_arith);
    assert(is_fifth_root((8458922 * 79228162514264337593543950336) as int, 14629817))
        by (nonlinear_arith);
    assert(28812 * 281474976710656 <= 8458922 * 14629817 * 65535 < (28812 + 1) * 281474976710656)
        by (nonlinear_arith);
    lemma_decode_at(177, 8458922, 14629817, 28812);
    assert(8547717 * 72374450625 <= (1000 * 178 + 14025) * (1000 * 178 + 14025) * 16777216
        < (8547717 + 1) * 72374450625) by (nonlinear_arith);
    assert(is_fifth_root((8547717 * 79228162514264337593543950336) as int, 14660404))
        by (nonlinear_arith);
    assert(29176 * 281474976710656 <= 8547717 * 14660404 * 65535 < (29176 + 1) * 281474976710656)
        by (nonlinear_arith);
    lemma_decode_at(178, 8547717, 14660404, 29176);
    assert(8636976 * 72374450625 <= (1000 * 179 + 14025) * (1000 * 179 + 14025) * 16777216
        < (8636976 + 1) * 72374450625) by (nonlinear_arith);
    assert(is_fifth_root((8636976 * 79228162514264337593543950336) as int, 14690895))
        by (nonlinear_arith);
    assert(29542 * 281474976710656 <= 8636976 * 14690895 * 65535 < (29542 + 1) * 281474976710656)
        by (nonlinear_arith);
    lemma_decode_at(179, 8636976, 14690895, 29542);
    assert(8726699 * 72374450625 <= (1000 * 180 + 14025) * (1000 * 180 + 14025) * 16777216
        < (8726699 + 1) * 72374450625) by (nonlinear_arith);
    assert(is_fifth_root((8726699 * 79228162514264337593543950336) as int, 14721291))
        by (nonlinear_arith);
    assert(29910 * 281474976710656 <= 8726699 * 14721291 * 65535 < (29910 + 1) * 281474976710656)
        by (nonlinear_arith);
    lemma_decode_at(180, 8726699, 14721291, 29910);
}

proof fn lemma_decode_values_34()
    ensures
        srgb_decode(181) == 30282,
        srgb_decode(182) == 30656,
        srgb_decode(183) == 31032,
        srgb_decode(184) == 31412,
        srgb_decode(185) == 31794,
{
    assert(8816885 * 72374450625 <= (1000 * 181 + 14025) * (1000 * 181 + 14025) * 16777216
        < (8816885 + 1) * 72374450625) by (nonlinear_arith);
    assert(is_fifth_root((8816885 * 79228162514264337593543950336) as int, 14751594))
        by (nonlinear_arith);
    assert(30282 * 281474976710656 <= 8816885 * 14751594 * 65535 < (30282 + 1) * 281474976710656)
        by (nonlinear_arith);
    lemma_decode_at(181, 8816885, 14751594, 30282);
    assert(8907535 * 72374450625 <= (1000 * 182 + 14025) * (1000 * 182 + 14025) * 16777216
        < (8907535 + 1) * 72374450625) by (nonlinear_arith);
    assert(is_fifth_root((8907535 * 79228162514264337593543950336) as int, 14781803))
        by (nonlinear_arith);
    assert(30656 * 281474976710656 <= 8907535 * 14781803 * 65535 < (30656 + 1) * 281474976710656)
        by (nonlinear_arith);
    lemma_decode_at(182, 8907535, 14781803, 30656);
    assert(8998648 * 72374450625 <= (1000 * 183 + 14025) * (1000 * 183 + 14025) * 16777216
        < (8998648 + 1) * 72374450625) by (nonlinear_arith);
    assert(is_fifth_root((8998648 * 79228162514264337593543950336) as int, 14811920))
        by (nonlinear_arith);
    assert(31032 * 281474976710656 <= 8998648 * 14811920 * 65535 < (31032 + 1) * 281474976710656)
        by (nonlinear_arith);
    lemma_decode_at(183, 8998648, 14811920, 31032);
    assert(9090225 * 72374450625 <= (1000 * 184 + 14025) * (1000 * 184 + 14025) * 16777216
        < (9090225 + 1) * 72374450625) by (nonlinear_arith);
    assert(is_fifth_root((9090225 * 79228162514264337593543950336) as int, 14841945))
        by (nonlinear_arith);
    assert(31412 * 281474976710656 <= 9090225 * 14841945 * 65535 < (31412 + 1) * 281474976710656)
        by (nonlinear_arith);
    lemma_decode_at(184, 9090225, 14841945, 31412);
    assert(9182266 * 72374450625 <= (1000 * 185 + 14025) * (1000 * 185 + 14025) * 16777216
        < (9182266 + 1) * 72374450625) by (nonlinear_arith);
    assert(is_fifth_root((9182266 * 79228162514264337593543950336) as int, 14871880))
        by (nonlinear_arith);
    assert(31794 * 281474976710656 <= 9182266 * 14871880 * 65535 < (31794 + 1) * 281474976710656)
        by (nonlinear_arith);
    lemma_decode_at(185, 9182266, 14871880, 31794);
}

proof fn lemma_decode_values_35()
    ensures
        srgb_decode(186) == 32179,
        srgb_decode(187) == 32566,
        srgb_decode(188) == 32956,
        srgb_decode(189) == 33349,
        srgb_decode(190) == 33745,
{
    assert(9274770 * 72374450625 <= (1000 * 186 + 14025) * (1000 * 186 + 14025) * 16777216
        < (9274770 + 1) * 72374450625) by (nonlinear_arith);
    assert(is_fifth_root((9274770 * 79228162514264337593543950336) as int, 14901725))
        by (nonlinear_arith);
    assert(32179 * 281474976710656 <= 9274770 * 14901725 * 65535 < (32179 + 1) * 281474976710656)
        by (nonlinear_arith);
    lemma_decode_at(186, 9274770, 14901725, 32179);
    assert(9367738 * 72374450625 <= (1000 * 187 + 14025) * (1000 * 187 + 14025) * 16777216
        < (9367738 + 1) * 72374450625) by (nonlinear_arith);
    assert(is_fifth_root((9367738 * 79228162514264337593543950336) as int, 14931480))
        by (nonlinear_arith);
    assert(32566 * 281474976710656 <= 9367738 * 14931480 * 65535 < (32566 + 1) * 281474976710656)
        by (nonlinear_arith);
    lemma_decode_at(187, 9367738, 14931480, 32566);
    assert(9461170 * 72374450625 <= (1000 * 188 + 14025) * (1000 * 188 + 14025) * 16777216
        < (9461170 + 1) * 72374450625) by (nonlinear_arith);
    assert(is_fifth_root((9461170 * 79228162514264337593543950336) as int, 14961146))
        by (nonlinear_arith);
    assert(32956 * 281474976710656 <= 9461170 * 14961146 * 65535 < (32956 + 1) * 281474976710656)
        by (nonlinear_arith);
    lemma_decode_at(188, 9461170, 14961146, 32956);
    assert(9555065 * 72374450625 <= (1000 * 189 + 14025) * (1000 * 189 + 14025) * 16777216
        < (9555065 + 1) * 72374450625) by (nonlinear_arith);
    assert(is_fifth_root((9555065 * 79228162514264337593543950336) as int, 14990725))
        by (nonlinear_arith);
    assert(33349 * 281474976710656 <= 9555065 * 14990725 * 65535 < (33349 + 1) * 281474976710656)
        by (nonlinear_arith);
    lemma_decode_at(189, 9555065, 14990725, 33349);
    assert(9649423 * 72374450625 <= (1000 * 190 + 14025) * (1000 * 190 + 14025) * 16777216
        < (9649423 + 1) * 72374450625) by (nonlinear_arith);
    assert(is_fifth_root((9649423 * 79228162514264337593543950336) as int, 15020216))
        by (nonlinear_arith);
    assert(33745 * 281474976710656 <= 9649423 * 15020216 * 65535 < (33745 + 1) * 281474976710656)
        by (nonlinear_arith);
    lemma_decode_at(190, 9649423, 15020216, 33745);
}

proof fn lemma_decode_values_36()
    ensures
        srgb_decode(191) == 34143,
        srgb_decode(192) == 34544,
        srgb_decode(193) == 34948,
        srgb_decode(194) == 35354,
        srgb_decode(195) == 35764,
{
    assert(9744246 * 72374450625 <= (1000 * 191 + 14025) * (1000 * 191 + 14025) * 16777216
        < (9744246 + 1) * 72374450625) by (nonlinear_arith);
    assert(is_fifth_root((9744246 * 79228162514264337593543950336) as int, 15049621))
        by (nonlinear_arith);
    assert(34143 * 281474976710656 <= 9744246 * 15049621 * 65535 < (34143 + 1) * 281474976710656)
        by (nonlinear_arith);
    lemma_decode_at(191, 9744246, 15049621, 34143);
    assert(9839532 * 72374450625 <= (1000 * 192 + 14025) * (1000 * 192 + 14025) * 16777216
        < (9839532 + 1) * 72374450625) by (nonlinear_arith);
    assert(is_fifth_root((9839532 * 79228162514264337593543950336) as int, 15078939))
        by (nonlinear_arith);
    assert(34544 * 281474976710656 <= 9839532 * 15078939 * 65535 < (34544 + 1) * 281474976710656)
        by (nonlinear_arith);
    lemma_decode_at(192, 9839532, 15078939, 34544);
    assert(9935282 * 72374450625 <= (1000 * 193 + 14025) * (1000 * 193 + 14025) * 16777216
        < (9935282 + 1) * 72374450625) by (nonlinear_arith);
    assert(is_fifth_root((9935282 * 79228162514264337593543950336) as int, 15108173))
        by (nonlinear_arith);
    assert(34948 * 281474976710656 <= 9935282 * 15108173 * 65535 < (34948 + 1) * 281474976710656)
        by (nonlinear_arith);
    lemma_decode_at(193, 9935282, 15108173, 34948);
    assert(10031495 * 72374450625 <= (1000 * 194 + 14025) * (1000 * 194 + 14025) * 16777216
        < (10031495 + 1) * 72374450625) by (nonlinear_arith);
    assert(is_fifth_root((10031495 * 79228162514264337593543950336) as int, 15137321))
        by (nonlinear_arith);
    assert(35354 * 281474976710656 <= 10031495 * 15137321 * 65535 < (35354 + 1) * 281474976710656)
        by (nonlinear_arith);
    lemma_decode_at(194, 10031495, 15137321, 35354);
    assert(10128172 * 72374450625 <= (1000 * 195 + 14025) * (1000 * 195 + 14025) * 16777216
        < (10128172 + 1) * 72374450625) by (nonlinear_arith);
    assert(is_fifth_root((10128172 * 79228162514264337593543950336) as int, 15166386))
        by (nonlinear_arith);
    assert(35764 * 281474976710656 <= 10128172 * 15166386 * 65535 < (35764 + 1) * 281474976710656)
        by (nonlinear_arith);
    lemma_decode_at(195, 10128172, 15166386, 35764);
}

proof fn lemma_decode_values_37()
    ensures
        srgb_decode(196) == 36176,
        srgb_decode(197) == 36590,
        srgb_decode(198) == 37008,
        srgb_decode(199) == 37428,
        srgb_decode(200) == 37851,
{
    assert(10225312 * 72374450625 <= (1000 * 196 + 14025) * (1000 * 196 + 14025) * 16777216
        < (10225312 + 1) * 72374450625) by (nonlinear_arith);
    assert(is_fifth_root((10225312 * 79228162514264337593543950336) as int, 15195368))
        by (nonlinear_arith);
    assert(36176 * 281474976710656 <= 10225312 * 15195368 * 65535 < (36176 + 1) * 281474976710656)
        by (nonlinear_arith);
    lemma_decode_at(196, 10225312, 15195368, 36176);
    assert(10322916 * 72374450625 <= (1000 * 197 + 14025) * (1000 * 197 + 14025) * 16777216
        < (10322916 + 1) * 72374450625) by (nonlinear_arith);
    assert(is_fifth_root((10322916 * 79228162514264337593543950336) as int, 15224267))
        by (nonlinear_arith);
    assert(36590 * 281474976710656 <= 10322916 * 15224267 * 65535 < (36590 + 1) * 281474976710656)
        by (nonlinear_arith);
    lemma_decode_at(197, 10322916, 15224267, 36590);
    assert(10420984 * 72374450625 <= (1000 * 198 + 14025) * (1000 * 198 + 14025) * 16777216
        < (10420984 + 1) * 72374450625) by (nonlinear_arith);
    assert(is_fifth_root((10420984 * 79228162514264337593543950336) as int, 15253084))
        by (nonlinear_arith);
    assert(37008 * 281474976710656 <= 10420984 * 15253084 * 65535 < (37008 + 1) * 281474976710656)
        by (nonlinear_arith);
    lemma_decode_at(198, 10420984, 15253084, 37008);
    assert(10519516 * 72374450625 <= (1000 * 199 + 14025) * (1000 * 199 + 14025) * 16777216
        < (10519516 + 1) * 72374450625) by (nonlinear_arith);
    assert(is_fifth_root((10519516 * 79228162514264337593543950336) as int, 15281819))
        by (nonlinear_arith);
    assert(37428 * 281474976710656 <= 10519516 * 15281819 * 65535 < (37428 + 1) * 281474976710656)
        by (nonlinear_arith);
    lemma_decode_at(199, 10519516, 15281819, 37428);
    assert(10618511 * 72374450625 <= (1000 * 200 + 14025) * (1000 * 200 + 14025) * 16777216
        < (10618511 + 1) * 72374450625) by (nonlinear_arith);
    assert(is_fifth_root((10618511 * 79228162514264337593543950336) as int, 15310474))
        by (nonlinear_arith);
    assert(37851 * 281474976710656 <= 10618511 * 15310474 * 65535 < (37851 + 1) * 281474976710656)
        by (nonlinear_arith);
    lemma_decode_at(200, 10618511, 15310474, 37851);
}

proof fn lemma_decode_values_38()
    ensures
        srgb_decode(201) == 38277,
        srgb_decode(202) == 38706,
        srgb_decode(203) == 39137,
        srgb_decode(204) == 39571,
        srgb_decode(205) == 40008,
{
    assert(10717969 * 72374450625 <= (1000 * 201 + 14025) * (1000 * 201 + 14025) * 16777216
        < (10717969 + 1) * 72374450625) by (nonlinear_arith);
    assert(is_fifth_root((10717969 * 79228162514264337593543950336) as int, 15339048))
        by (nonlinear_arith);
    assert(38277 * 281474976710656 <= 10717969 * 15339048 * 65535 < (38277 + 1) * 281474976710656)
        by (nonlinear_arith);
    lemma_decode_at(201, 10717969, 15339048, 38277);
    assert(10817892 * 72374450625 <= (1000 * 202 + 14025) * (1000 * 202 + 14025) * 16777216
        < (10817892 + 1) * 72374450625) by (nonlinear_arith);
    assert(is_fifth_root((10817892 * 79228162514264337593543950336) as int, 15367543))
        by (nonlinear_arith);
    assert(38706 * 281474976710656 <= 10817892 * 15367543 * 65535 < (38706 + 1) * 281474976710656)
        by (nonlinear_arith);
    lemma_decode_at(202, 10817892, 15367543, 38706);
    assert(10918277 * 72374450625 <= (1000 * 203 + 14025) * (1000 * 203 + 14025) * 16777216
        < (10918277 + 1) * 72374450625) by (nonlinear_arith);
    assert(is_fifth_root((10918277 * 79228162514264337593543950336) as int, 15395958))
        by (nonlinear_arith);
    assert(39137 * 281474976710656 <= 10918277 * 15395958 * 65535 < (39137 + 1) * 281474976710656)
        by (nonlinear_arith);
    lemma_decode_at(203, 10918277, 15395958, 39137);
    assert(11019127 * 72374450625 <= (1000 * 204 + 14025) * (1000 * 204 + 14025) * 16777216
        < (11019127 + 1) * 72374450625) by (nonlinear_arith);
    assert(is_fifth_root((11019127 * 79228162514264337593543950336) as int, 15424296))
        by (nonlinear_arith);
    assert(39571 * 281474976710656 <= 11019127 * 15424296 * 65535 < (39571 + 1) * 281474976710656)
        by (nonlinear_arith);
    lemma_decode_at(204, 11019127, 15424296, 39571);
    assert(11120440 * 72374450625 <= (1000 * 205 + 14025) * (1000 * 205 + 14025) * 16777216
        < (11120440 + 1) * 72374450625) by (nonlinear_arith);
    assert(is_fifth_root((11120440 * 79228162514264337593543950336) as int, 15452555))
        by (nonlinear_arith);
    assert(40008 * 281474976710656 <= 11120440 * 15452555 * 65535 < (40008 + 1) * 281474976710656)
        by (nonlinear_arith);
    lemma_decode_at(205, 11120440, 15452555, 40008);
}

proof fn lemma_decode_values_39()
    ensures
        srgb_decode(206) == 40448,
        srgb_decode(207) == 40891,
        srgb_decode(208) == 41336,
        srgb_decode(209) == 41784,
        srgb_decode(210) == 42235,
{
    assert(11222217 * 72374450625 <= (1000 * 206 + 14025) * (1000 * 206 + 14025) * 16777216
        < (11222217 + 1) * 72374450625) by (nonlinear_arith);
    assert(is_fifth_root((11222217 * 79228162514264337593543950336) as int, 15480737))
        by (nonlinear_arith);
    assert(40448 * 281474976710656 <= 11222217 * 15480737 * 65535 < (40448 + 1) * 281474976710656)
        by (nonlinear_arith);
    lemma_decode_at(206, 11222217, 15480737, 40448);
    assert(11324457 * 72374450625 <= (1000 * 207 + 14025) * (1000 * 207 + 14025) * 16777216
        < (11324457 + 1) * 72374450625) by (nonlinear_arith);
    assert(is_fifth_root((11324457 * 79228162514264337593543950336) as int, 15508842))
        by (nonlinear_arith);
    assert(40891 * 281474976710656 <= 11324457 * 15508842 * 65535 < (40891 + 1) * 281474976710656)
        by (nonlinear_arith);
    lemma_decode_at(207, 11324457, 15508842, 40891);
    assert(11427161 * 72374450625 <= (1000 * 208 + 14025) * (1000 * 208 + 14025) * 16777216
        < (11427161 + 1) * 72374450625) by (nonlinear_arith);
    assert(is_fifth_root((11427161 * 79228162514264337593543950336) as int, 15536871))
        by (nonlinear_arith);
    assert(41336 * 281474976710656 <= 11427161 * 15536871 * 65535 < (41336 + 1) * 281474976710656)
        by (nonlinear_arith);
    lemma_decode_at(208, 11427161, 15536871, 41336);
    assert(11530329 * 72374450625 <= (1000 * 209 + 14025) * (1000 * 209 + 14025) * 16777216
        < (11530329 + 1) * 72374450625) by (nonlinear_arith);
    assert(is_fifth_root((11530329 * 79228162514264337593543950336) as int, 15564825))
        by (nonlinear_arith);
    assert(41784 * 281474976710656 <= 11530329 * 15564825 * 65535 < (41784 + 1) * 281474976710656)
        by (nonlinear_arith);
    lemma_decode_at(209, 11530329, 15564825, 41784);
    assert(11633960 * 72374450625 <= (1000 * 210 + 14025) * (1000 * 210 + 14025) * 16777216
        < (11633960 + 1) * 72374450625) by (nonlinear_arith);
    assert(is_fifth_root((11633960 * 79228162514264337593543950336) as int, 15592703))
        by (nonlinear_arith);
    assert(42235 * 281474976710656 <= 11633960 * 15592703 * 65535 < (42235 + 1) * 281474976710656)
        by (nonlinear_arith);
    lemma_decode_at(210, 11633960, 15592703, 42235);
}

proof fn lemma_decode_values_40()
    ensures
        srgb_decode(211) == 42689,
        srgb_decode(212) == 43146,
        srgb_decode(213) == 43606,
        srgb_decode(214) == 44068,
        srgb_decode(215) == 44533,
{
    assert(11738055 * 72374450625 <= (1000 * 211 + 14025) * (1000 * 211 + 14025) * 16777216
        < (11738055 + 1) * 72374450625) by (nonlinear_arith);
    assert(is_fifth_root((11738055 * 79228162514264337593543950336) as int, 15620507))
        by (nonlinear_arith);
    assert(42689 * 281474976710656 <= 11738055 * 15620507 * 65535 < (42689 + 1) * 281474976710656)
        by (nonlinear_arith);
    lemma_decode_at(211, 11738055, 15620507, 42689);
    assert(11842613 * 72374450625 <= (1000 * 212 + 14025) * (1000 * 212 + 14025) * 16777216
        < (11842613 + 1) * 72374450625) by (nonlinear_arith);
    assert(is_fifth_root((11842613 * 79228162514264337593543950336) as int, 15648237))
        by (nonlinear_arith);
    assert(43146 * 281474976710656 <= 11842613 * 15648237 * 65535 < (43146 + 1) * 281474976710656)
        by (nonlinear_arith);
    lemma_decode_at(212, 11842613, 15648237, 43146);
    assert(11947636 * 72374450625 <= (1000 * 213 + 14025) * (1000 * 213 + 14025) * 16777216
        < (11947636 + 1) * 72374450625) by (nonlinear_arith);
    assert(is_fifth_root((11947636 * 79228162514264337593543950336) as int, 15675893))
        by (nonlinear_arith);
    assert(43606 * 281474976710656 <= 11947636 * 15675893 * 65535 < (43606 + 1) * 281474976710656)
        by (nonlinear_arith);
    lemma_decode_at(213, 11947636, 15675893, 43606);
    assert(12053121 * 72374450625 <= (1000 * 214 + 14025) * (1000 * 214 + 14025) * 16777216
        < (12053121 + 1) * 72374450625) by (nonlinear_arith);
    assert(is_fifth_root((12053121 * 79228162514264337593543950336) as int, 15703476))
        by (nonlinear_arith);
    assert(44068 * 281474976710656 <= 12053121 * 15703476 * 65535 < (44068 + 1) * 281474976710656)
        by (nonlinear_arith);
    lemma_decode_at(214, 12053121, 15703476, 44068);
    assert(12159071 * 72374450625 <= (1000 * 215 + 14025) * (1000 * 215 + 14025) * 16777216
        < (12159071 + 1) * 72374450625) by (nonlinear_arith);
    assert(is_fifth_root((12159071 * 79228162514264337593543950336) as int, 15730987))
        by (nonlinear_arith);
    assert(44533 * 281474976710656 <= 12159071 * 15730987 * 65535 < (44533 + 1) * 281474976710656)
        by (nonlinear_arith);
    lemma_decode_at(215, 12159071, 15730987, 44533);
}

proof fn lemma_decode_values_41()
    ensures
        srgb_decode(216) == 45001,
        srgb_decode(217) == 45472,
        srgb_decode(218) == 45946,
        srgb_decode(219) == 46423,
        srgb_decode(220) == 46902,
{
    assert(12265484 * 72374450625 <= (1000 * 216 + 14025) * (1000 * 216 + 14025) * 16777216
        < (12265484 + 1) * 72374450625) by (nonlinear_arith);
    assert(is_fifth_root((12265484 * 79228162514264337593543950336) as int, 15758426))
        by (nonlinear_arith);
    assert(45001 * 281474976710656 <= 12265484 * 15758426 * 65535 < (45001 + 1) * 281474976710656)
        by (nonlinear_arith);
    lemma_decode_at(216, 12265484, 15758426, 45001);
    assert(12372360 * 72374450625 <= (1000 * 217 + 14025) * (1000 * 217 + 14025) * 16777216
        < (12372360 + 1) * 72374450625) by (nonlinear_arith);
    assert(is_fifth_root((12372360 * 79228162514264337593543950336) as int, 15785793))
        by (nonlinear_arith);
    assert(45472 * 281474976710656 <= 12372360 * 15785793 * 65535 < (45472 + 1) * 281474976710656)
        by (nonlinear_arith);
    lemma_decode_at(217, 12372360, 15785793, 45472);
    assert(12479700 * 72374450625 <= (1000 * 218 + 14025) * (1000 * 218 + 14025) * 16777216
        < (12479700 + 1) * 72374450625) by (nonlinear_arith);
    assert(is_fifth_root((12479700 * 79228162514264337593543950336) as int, 15813090))
        by (nonlinear_arith);
    assert(45946 * 281474976710656 <= 12479700 * 15813090 * 65535 < (45946 + 1) * 281474976710656)
        by (nonlinear_arith);
    lemma_decode_at(218, 12479700, 15813090, 45946);
    assert(12587504 * 72374450625 <= (1000 * 219 + 14025) * (1000 * 219 + 14025) * 16777216
        < (12587504 + 1) * 72374450625) by (nonlinear_arith);
    assert(is_fifth_root((12587504 * 79228162514264337593543950336) as int, 15840315))
        by (nonlinear_arith);
    assert(46423 * 281474976710656 <= 12587504 * 15840315 * 65535 < (46423 + 1) * 281474976710656)
        by (nonlinear_arith);
    lemma_decode_at(219, 12587504, 15840315, 46423);
    assert(12695772 * 72374450625 <= (1000 * 220 + 14025) * (1000 * 220 + 14025) * 16777216
        < (12695772 + 1) * 72374450625) by (nonlinear_arith);
    assert(is_fifth_root((12695772 * 79228162514264337593543950336) as int, 15867471))
        by (nonlinear_arith);
    assert(46902 * 281474976710656 <= 12695772 * 15867471 * 65535 < (46902 + 1) * 281474976710656)
        by (nonlinear_arith);
    lemma_decode_at(220, 12695772, 15867471, 46902);
}

proof fn lemma_decode_values_42()
    ensures
        srgb_decode(221) == 47385,
        srgb_decode(222) == 47870,
        srgb_decode(223) == 48358,
        srgb_decode(224) == 48850,
        srgb_decode(225) == 49344,
{
    assert(12804503 * 72374450625 <= (1000 * 221 + 14025) * (1000 * 221 + 14025) * 16777216
        < (12804503 + 1) * 72374450625) by (nonlinear_arith);
    assert(is_fifth_root((12804503 * 79228162514264337593543950336) as int, 15894558))
        by (nonlinear_arith);
    assert(47385 * 281474976710656 <= 12804503 * 15894558 * 65535 < (47385 + 1) * 281474976710656)
        by (nonlinear_arith);
    lemma_decode_at(221, 12804503, 15894558, 47385);
    assert(12913698 * 72374450625 <= (1000 * 222 + 14025) * (1000 * 222 + 14025) * 16777216
        < (12913698 + 1) * 72374450625) by (nonlinear_arith);
    assert(is_fifth_root((12913698 * 79228162514264337593543950336) as int, 15921575))
        by (nonlinear_arith);
    assert(47870 * 281474976710656 <= 12913698 * 15921575 * 65535 < (47870 + 1) * 281474976710656)
        by (nonlinear_arith);
    lemma_decode_at(222, 12913698, 15921575, 47870);
    assert(13023356 * 72374450625 <= (1000 * 223 + 14025) * (1000 * 223 + 14025) * 16777216
        < (13023356 + 1) * 72374450625) by (nonlinear_arith);
    assert(is_fifth_root((13023356 * 79228162514264337593543950336) as int, 15948524))
        by (nonlinear_arith);
    assert(48358 * 281474976710656 <= 13023356 * 15948524 * 65535 < (48358 + 1) * 281474976710656)
        by (nonlinear_arith);
    lemma_decode_at(223, 13023356, 15948524, 48358);
    assert(13133478 * 72374450625 <= (1000 * 224 + 14025) * (1000 * 224 + 14025) * 16777216
        < (13133478 + 1) * 72374450625) by (nonlinear_arith);
    assert(is_fifth_root((13133478 * 79228162514264337593543950336) as int, 15975404))
        by (nonlinear_arith);
    assert(48850 * 281474976710656 <= 13133478 * 15975404 * 65535 < (48850 + 1) * 281474976710656)
        by (nonlinear_arith);
    lemma_decode_at(224, 13133478, 15975404, 48850);
    assert(13244063 * 72374450625 <= (1000 * 225 + 14025) * (1000 * 225 + 14025) * 16777216
        < (13244063 + 1) * 72374450625) by (nonlinear_arith);
    assert(is_fifth_root((13244063 * 79228162514264337593543950336) as int, 16002217))
        by (nonlinear_arith);
    assert(49344 * 281474976710656 <= 13244063 * 16002217 * 65535 < (49344 + 1) * 281474976710656)
        by (nonlinear_arith);
    lemma_decode_at(225, 13244063, 16002217, 49344);
}

proof fn lemma_decode_values_43()
    ensures
        srgb_decode(226) == 49840,
        srgb_decode(227) == 50340,
        srgb_decode(228) == 50843,
        srgb_decode(229) == 51349,
        srgb_decode(230) == 51857,
{
    assert(13355113 * 72374450625 <= (1000 * 226 + 14025) * (1000 * 226 + 14025) * 16777216
        < (13355113 + 1) * 72374450625) by (nonlinear_arith);
    assert(is_fifth_root((13355113 * 79228162514264337593543950336) as int, 16028963))
        by (nonlinear_arith);
    assert(49840 * 281474976710656 <= 13355113 * 16028963 * 65535 < (49840 + 1) * 281474976710656)
        by (nonlinear_arith);
    lemma_decode_at(226, 13355113, 16028963, 49840);
    assert(13466625 * 72374450625 <= (1000 * 227 + 14025) * (1000 * 227 + 14025) * 16777216
        < (13466625 + 1) * 72374450625) by (nonlinear_arith);
    assert(is_fifth_root((13466625 * 79228162514264337593543950336) as int, 16055641))
        by (nonlinear_arith);
    assert(50340 * 281474976710656 <= 13466625 * 16055641 * 65535 < (50340 + 1) * 281474976710656)
        by (nonlinear_arith);
    lemma_decode_at(227, 13466625, 16055641, 50340);
    assert(13578602 * 72374450625 <= (1000 * 228 + 14025) * (1000 * 228 + 14025) * 16777216
        < (13578602 + 1) * 72374450625) by (nonlinear_arith);
    assert(is_fifth_root((13578602 * 79228162514264337593543950336) as int, 16082254))
        by (nonlinear_arith);
    assert(50843 * 281474976710656 <= 13578602 * 16082254 * 65535 < (50843 + 1) * 281474976710656)
        by (nonlinear_arith);
    lemma_decode_at(228, 13578602, 16082254, 50843);
    assert(13691042 * 72374450625 <= (1000 * 229 + 14025) * (1000 * 229 + 14025) * 16777216
        < (13691042 + 1) * 72374450625) by (nonlinear_arith);
    assert(is_fifth_root((13691042 * 79228162514264337593543950336) as int, 16108801))
        by (nonlinear_arith);
    assert(51349 * 281474976710656 <= 13691042 * 16108801 * 65535 < (51349 + 1) * 281474976710656)
        by (nonlinear_arith);
    lemma_decode_at(229, 13691042, 16108801, 51349);
    assert(13803946 * 72374450625 <= (1000 * 230 + 14025) * (1000 * 230 + 14025) * 16777216
        < (13803946 + 1) * 72374450625) by (nonlinear_arith);
    assert(is_fifth_root((13803946 * 79228162514264337593543950336) as int, 16135282))
        by (nonlinear_arith);
    assert(51857 * 281474976710656 <= 13803946 * 16135282 * 65535 < (51857 + 1) * 281474976710656)
        by (nonlinear_arith);
    lemma_decode_at(230, 13803946, 16135282, 51857);
}

proof fn lemma_decode_values_44()
    ensures
        srgb_decode(231) == 52369,
        srgb_decode(232) == 52883,
        srgb_decode(233) == 53400,
        srgb_decode(234) == 53921,
        srgb_decode(235) == 54444,
{
    assert(13917313 * 72374450625 <= (1000 * 231 + 14025) * (1000 * 231 + 14025) * 16777216
        < (13917313 + 1) * 72374450625) by (nonlinear_arith);
    assert(is_fifth_root((13917313 * 79228162514264337593543950336) as int, 16161698))
        by (nonlinear_arith);
    assert(52369 * 281474976710656 <= 13917313 * 16161698 * 65535 < (52369 + 1) * 281474976710656)
        by (nonlinear_arith);
    lemma_decode_at(231, 13917313, 16161698, 52369);
    assert(14031144 * 72374450625 <= (1000 * 232 + 14025) * (1000 * 232 + 14025) * 16777216
        < (14031144 + 1) * 72374450625) by (nonlinear_arith);
    assert(is_fifth_root((14031144 * 79228162514264337593543950336) as int, 16188049))
        by (nonlinear_arith);
    assert(52883 * 281474976710656 <= 14031144 * 16188049 * 65535 < (52883 + 1) * 281474976710656)
        by (nonlinear_arith);
    lemma_decode_at(232, 14031144, 16188049, 52883);
    assert(14145439 * 72374450625 <= (1000 * 233 + 14025) * (1000 * 233 + 14025) * 16777216
        < (14145439 + 1) * 72374450625) by (nonlinear_arith);
    assert(is_fifth_root((14145439 * 79228162514264337593543950336) as int, 16214337))
        by (nonlinear_arith);
    assert(53400 * 281474976710656 <= 14145439 * 16214337 * 65535 < (53400 + 1) * 281474976710656)
        by (nonlinear_arith);
    lemma_decode_at(233, 14145439, 16214337, 53400);
    assert(14260197 * 72374450625 <= (1000 * 234 + 14025) * (1000 * 234 + 14025) * 16777216
        < (14260197 + 1) * 72374450625) by (nonlinear_arith);
    assert(is_fifth_root((14260197 * 79228162514264337593543950336) as int, 16240560))
        by (nonlinear_arith);
    assert(53921 * 281474976710656 <= 14260197 * 16240560 * 65535 < (53921 + 1) * 281474976710656)
        by (nonlinear_arith);
    lemma_decode_at(234, 14260197, 16240560, 53921);
    assert(14375419 * 72374450625 <= (1000 * 235 + 14025) * (1000 * 235 + 14025) * 16777216
        < (14375419 + 1) * 72374450625) by (nonlinear_arith);
    assert(is_fifth_root((14375419 * 79228162514264337593543950336) as int, 16266721))
        by (nonlinear_arith);
    assert(54444 * 281474976710656 <= 14375419 * 16266721 * 65535 < (54444 + 1) * 281474976710656)
        by (nonlinear_arith);
    lemma_decode_at(235, 14375419, 16266721, 54444);
}

proof fn lemma_decode_values_45()
    ensures
        srgb_decode(236) == 54970,
        srgb_decode(237) == 55499,
        srgb_decode(238) == 56031,
        srgb_decode(239) == 56567,
        srgb_decode(240) == 57105,
{
    assert(14491104 * 72374450625 <= (1000 * 236 + 14025) * (1000 * 236 + 14025) * 16777216
        < (14491104 + 1) * 72374450625) by (nonlinear_arith);
    assert(is_fifth_root((14491104 * 79228162514264337593543950336) as int, 16292818))
        by (nonlinear_arith);
    assert(54970 * 281474976710656 <= 14491104 * 16292818 * 65535 < (54970 + 1) * 281474976710656)
        by (nonlinear_arith);
    lemma_decode_at(236, 14491104, 16292818, 54970);
    assert(14607253 * 72374450625 <= (1000 * 237 + 14025) * (1000 * 237 + 14025) * 16777216
        < (14607253 + 1) * 72374450625) by (nonlinear_arith);
    assert(is_fifth_root((14607253 * 79228162514264337593543950336) as int, 16318852))
        by (nonlinear_arith);
    assert(55499 * 281474976710656 <= 14607253 * 16318852 * 65535 < (55499 + 1) * 281474976710656)
        by (nonlinear_arith);
    lemma_decode_at(237, 14607253, 16318852, 55499);
    assert(14723866 * 72374450625 <= (1000 * 238 + 14025) * (1000 * 238 + 14025) * 16777216
        < (14723866 + 1) * 72374450625) by (nonlinear_arith);
    assert(is_fifth_root((14723866 * 79228162514264337593543950336) as int, 16344825))
        by (nonlinear_arith);
    assert(56031 * 281474976710656 <= 14723866 * 16344825 * 65535 < (56031 + 1) * 281474976710656)
        by (nonlinear_arith);
    lemma_decode_at(238, 14723866, 16344825, 56031);
    assert(14840942 * 72374450625 <= (1000 * 239 + 14025) * (1000 * 239 + 14025) * 16777216
        < (14840942 + 1) * 72374450625) by (nonlinear_arith);
    assert(is_fifth_root((14840942 * 79228162514264337593543950336) as int, 16370736))
        by (nonlinear_arith);
    assert(56567 * 281474976710656 <= 14840942 * 16370736 * 65535 < (56567 + 1) * 281474976710656)
        by (nonlinear_arith);
    lemma_decode_at(239, 14840942, 16370736, 56567);
    assert(14958482 * 72374450625 <= (1000 * 240 + 14025) * (1000 * 240 + 14025) * 16777216
        < (14958482 + 1) * 72374450625) by (nonlinear_arith);
    assert(is_fifth_root((14958482 * 79228162514264337593543950336) as int, 16396585))
        by (nonlinear_arith);
    assert(57105 * 281474976710656 <= 14958482 * 16396585 * 65535 < (57105 + 1) * 281474976710656)
        by (nonlinear_arith);
    lemma_decode_at(240, 14958482, 16396585, 57105);
}

proof fn lemma_decode_values_46()
    ensures
        srgb_decode(241) == 57646,
        srgb_decode(242) == 58190,
        srgb_decode(243) == 58737,
        srgb_decode(244) == 59286,
        srgb_decode(245) == 59839,
{
    assert(15076485 * 72374450625 <= (1000 * 241 + 14025) * (1000 * 241 + 14025) * 16777216
        < (15076485 + 1) * 72374450625) by (nonlinear_arith);
    assert(is_fifth_root((15076485 * 79228162514264337593543950336) as int, 16422373))
        by (nonlinear_arith);
    assert(57646 * 281474976710656 <= 15076485 * 16422373 * 65535 < (57646 + 1) * 281474976710656)
        by (nonlinear_arith);
    lemma_decode_at(241, 15076485, 16422373, 57646);
    assert(15194953 * 72374450625 <= (1000 * 242 + 14025) * (1000 * 242 + 14025) * 16777216
        < (15194953 + 1) * 72374450625) by (nonlinear_arith);
    assert(is_fifth_root((15194953 * 79228162514264337593543950336) as int, 16448101))
        by (nonlinear_arith);
    assert(58190 * 281474976710656 <= 15194953 * 16448101 * 65535 < (58190 + 1) * 281474976710656)
        by (nonlinear_arith);
    lemma_decode_at(242, 15194953, 16448101, 58190);
    assert(15313883 * 72374450625 <= (1000 * 243 + 14025) * (1000 * 243 + 14025) * 16777216
        < (15313883 + 1) * 72374450625) by (nonlinear_arith);
    assert(is_fifth_root((15313883 * 79228162514264337593543950336) as int, 16473769))
        by (nonlinear_arith);
    assert(58737 * 281474976710656 <= 15313883 * 16473769 * 65535 < (58737 + 1) * 281474976710656)
        by (nonlinear_arith);
    lemma_decode_at(243, 15313883, 16473769, 58737);
    assert(15433278 * 72374450625 <= (1000 * 244 + 14025) * (1000 * 244 + 14025) * 16777216
        < (15433278 + 1) * 72374450625) by (nonlinear_arith);
    assert(is_fifth_root((15433278 * 79228162514264337593543950336) as int, 16499377))
        by (nonlinear_arith);
    assert(59286 * 281474976710656 <= 15433278 * 16499377 * 65535 < (59286 + 1) * 281474976710656)
        by (nonlinear_arith);
    lemma_decode_at(244, 15433278, 16499377, 59286);
    assert(15553136 * 72374450625 <= (1000 * 245 + 14025) * (1000 * 245 + 14025) * 16777216
        < (15553136 + 1) * 72374450625) by (nonlinear_arith);
    assert(is_fifth_root((15553136 * 79228162514264337593543950336) as int, 16524925))
        by (nonlinear_arith);
    assert(59839 * 281474976710656 <= 15553136 * 16524925 * 65535 < (59839 + 1) * 281474976710656)
        by (nonlinear_arith);
    lemma_decode_at(245, 15553136, 16524925, 59839);
}

proof fn lemma_decode_values_47()
    ensures
        srgb_decode(246) == 60395,
        srgb_decode(247) == 60954,
        srgb_decode(248) == 61516,
        srgb_decode(249) == 62081,
        srgb_decode(250) == 62649,
{
    assert(15673458 * 72374450625 <= (1000 * 246 + 14025) * (1000 * 246 + 14025) * 16777216
        < (15673458 + 1) * 72374450625) by (nonlinear_arith);
    assert(is_fifth_root((15673458 * 79228162514264337593543950336) as int, 16550414))
        by (nonlinear_arith);
    assert(60395 * 281474976710656 <= 15673458 * 16550414 * 65535 < (60395 + 1) * 281474976710656)
        by (nonlinear_arith);
    lemma_decode_at(246, 15673458, 16550414, 60395);
    assert(15794243 * 72374450625 <= (1000 * 247 + 14025) * (1000 * 247 + 14025) * 16777216
        < (15794243 + 1) * 72374450625) by (nonlinear_arith);
    assert(is_fifth_root((15794243 * 79228162514264337593543950336) as int, 16575845))
        by (nonlinear_arith);
    assert(60954 * 281474976710656 <= 15794243 * 16575845 * 65535 < (60954 + 1) * 281474976710656)
        by (nonlinear_arith);
    lemma_decode_at(247, 15794243, 16575845, 60954);
    assert(15915492 * 72374450625 <= (1000 * 248 + 14025) * (1000 * 248 + 14025) * 16777216
        < (15915492 + 1) * 72374450625) by (nonlinear_arith);
    assert(is_fifth_root((15915492 * 79228162514264337593543950336) as int, 16601217))
        by (nonlinear_arith);
    assert(61516 * 281474976710656 <= 15915492 * 16601217 * 65535 < (61516 + 1) * 281474976710656)
        by (nonlinear_arith);
    lemma_decode_at(248, 15915492, 16601217, 61516);
    assert(16037204 * 72374450625 <= (1000 * 249 + 14025) * (1000 * 249 + 14025) * 16777216
        < (16037204 + 1) * 72374450625) by (nonlinear_arith);
    assert(is_fifth_root((16037204 * 79228162514264337593543950336) as int, 16626531))
        by (nonlinear_arith);
    assert(62081 * 281474976710656 <= 16037204 * 16626531 * 65535 < (62081 + 1) * 281474976710656)
        by (nonlinear_arith);
    lemma_decode_at(249, 16037204, 16626531, 62081);
    assert(16159380 * 72374450625 <= (1000 * 250 + 14025) * (1000 * 250 + 14025) * 16777216
        < (16159380 + 1) * 72374450625) by (nonlinear_arith);
    assert(is_fifth_root((16159380 * 79228162514264337593543950336) as int, 16651787))
        by (nonlinear_arith);
    assert(62649 * 281474976710656 <= 16159380 * 16651787 * 65535 < (62649 + 1) * 281474976710656)
        by (nonlinear_arith);
    lemma_decode_at(250, 16159380, 16651787, 62649);
}

proof fn lemma_decode_values_48()
    ensures
        srgb_decode(251) == 63220,
        srgb_decode(252) == 63794,
        srgb_decode(253) == 64371,
        srgb_decode(254) == 64951,
        srgb_decode(255) == 65535,
{
    assert(16282020 * 72374450625 <= (1000 * 251 + 14025) * (1000 * 251 + 14025) * 16777216
        < (16282020 + 1) * 72374450625) by (nonlinear_arith);
    assert(is_fifth_root((16282020 * 79228162514264337593543950336) as int, 16676986))
        by (nonlinear_arith);
    assert(63220 * 281474976710656 <= 16282020 * 16676986 * 65535 < (63220 + 1) * 281474976710656)
        by (nonlinear_arith);
    lemma_decode_at(251, 16282020, 16676986, 63220);
    assert(16405124 * 72374450625 <= (1000 * 252 + 14025) * (1000 * 252 + 14025) * 16777216
        < (16405124 + 1) * 72374450625) by (nonlinear_arith);
    assert(is_fifth_root((16405124 * 79228162514264337593543950336) as int, 16702128))
        by (nonlinear_arith);
    assert(63794 * 281474976710656 <= 16405124 * 16702128 * 65535 < (63794 + 1) * 281474976710656)
        by (nonlinear_arith);
    lemma_decode_at(252, 16405124, 16702128, 63794);
    assert(16528691 * 72374450625 <= (1000 * 253 + 14025) * (1000 * 253 + 14025) * 16777216
        < (16528691 + 1) * 72374450625) by (nonlinear_arith);
    assert(is_fifth_root((16528691 * 79228162514264337593543950336) as int, 16727213))
        by (nonlinear_arith);
    assert(64371 * 281474976710656 <= 16528691 * 16727213 * 65535 < (64371 + 1) * 281474976710656)
        by (nonlinear_arith);
    lemma_decode_at(253, 16528691, 16727213, 64371);
    assert(16652721 * 72374450625 <= (1000 * 254 + 14025) * (1000 * 254 + 14025) * 16777216
        < (16652721 + 1) * 72374450625) by (nonlinear_arith);
    assert(is_fifth_root((16652721 * 79228162514264337593543950336) as int, 16752242))
        by (nonlinear_arith);
    assert(64951 * 281474976710656 <= 16652721 * 16752242 * 65535 < (64951 + 1) * 281474976710656)
        by (nonlinear_arith);
    lemma_decode_at(254, 16652721, 16752242, 64951);
    assert(16777216 * 72374450625 <= (1000 * 255 + 14025) * (1000 * 255 + 14025) * 16777216
        < (16777216 + 1) * 72374450625) by (nonlinear_arith);
    assert(is_fifth_root((16777216 * 79228162514264337593543950336) as int, 16777216))
        by (nonlinear_arith);
    assert(65535 * 281474976710656 <= 16777216 * 16777216 * 65535 < (65535 + 1) * 281474976710656)
        by (nonlinear_arith);
    lemma_decode_at(255, 16777216, 16777216, 65535);
}

/// The decoded value of every byte.
proof fn lemma_decode_values()
    ensures
        srgb_decode(0) == 0,
        srgb_decode(1) == 19,
        srgb_decode(2) == 39,
        srgb_decode(3) == 59,
        srgb_decode(4) == 79,
        srgb_decode(5) == 99,
        srgb_decode(6) == 119,
        srgb_decode(7) == 139,
        srgb_decode(8) == 159,
        srgb_decode(9) == 179,
        srgb_decode(10) == 198,
        srgb_decode(11) == 219,
        srgb_decode(12) == 240,
        srgb_decode(13) == 263,
        srgb_decode(14) == 287,
        srgb_decode(15) == 313,
        srgb_decode(16) == 339,
        srgb_decode(17) == 367,
        srgb_decode(18) == 396,
        srgb_decode(19) == 426,
        srgb_decode(20) == 458,
        srgb_decode(21) == 491,
        srgb_decode(22) == 525,
        srgb_decode(23) == 561,
        srgb_decode(24) == 598,
        srgb_decode(25) == 637,
        srgb_decode(26) == 676,
        srgb_decode(27) == 718,
        srgb_decode(28) == 761,
        srgb_decode(29) == 805,
        srgb_decode(30) == 850,
        srgb_decode(31) == 897,
        srgb_decode(32) == 946,
        srgb_decode(33) == 996,
        srgb_decode(34) == 1048,
        srgb_decode(35) == 1101,
        srgb_decode(36) == 1156,
        srgb_decode(37) == 1212,
        srgb_decode(38) == 1270,
        srgb_decode(39) == 1329,
        srgb_decode(40) == 1390,
        srgb_decode(41) == 1453,
        srgb_decode(42) == 1517,
        srgb_decode(43) == 1583,
        srgb_decode(44) == 1650,
        srgb_decode(45) == 1719,
        srgb_decode(46) == 1790,
        srgb_decode(47) == 1862,
        srgb_decode(48) == 1937,
        srgb_decode(49) == 2012,
        srgb_decode(50) == 2090,
        srgb_decode(51) == 2169,
        srgb_decode(52) == 2250,
        srgb_decode(53) == 2333,
        srgb_decode(54) == 2417,
        srgb_decode(55) == 2503,
        srgb_decode(56) == 2591,
        srgb_decode(57) == 2681,
        srgb_decode(58) == 2772,
        srgb_decode(59) == 2866,
        srgb_decode(60) == 2961,
        srgb_decode(61) == 3058,
        srgb_decode(62) == 3156,
        srgb_decode(63) == 3257,
        srgb_decode(64) == 3359,
        srgb_decode(65) == 3464,
        srgb_decode(66) == 3570,
        srgb_decode(67) == 3678,
        srgb_decode(68) == 3788,
        srgb_decode(69) == 3900,
        srgb_decode(70) == 4013,
        srgb_decode(71) == 4129,
        srgb_decode(72) == 4246,
        srgb_decode(73) == 4366,
        srgb_decode(74) == 4487,
        srgb_decode(75) == 4611,
        srgb_decode(76) == 4736,
        srgb_decode(77) == 4863,
        srgb_decode(78) == 4992,
        srgb_decode(79) == 5124,
        srgb_decode(80) == 5257,
        srgb_decode(81) == 5392,
        srgb_decode(82) == 5529,
        srgb_decode(83) == 5668,
        srgb_decode(84) == 5810,
        srgb_decode(85) == 5953,
        srgb_decode(86) == 6098,
        srgb_decode(87) == 6245,
        srgb_decode(88) == 6395,
        srgb_decode(89) == 6546,
        srgb_decode(90) == 6700,
        srgb_decode(91) == 6856,
        srgb_decode(92) == 7013,
        srgb_decode(93) == 7173,
        srgb_decode(94) == 7335,
        srgb_decode(95) == 7499,
        srgb_decode(96) == 7665,
        srgb_decode(97) == 7833,
        srgb_decode(98) == 8004,
        srgb_decode(99) == 8176,
        srgb_decode(100) == 8351,
        srgb_decode(101) == 8528,
        srgb_decode(102) == 8707,
        srgb_decode(103) == 8888,
        srgb_decode(104) == 9072,
        srgb_decode(105) == 9257,
        srgb_decode(106) == 9445,
        srgb_decode(107) == 9635,
        srgb_decode(108) == 9827,
        srgb_decode(109) == 10022,
        srgb_decode(110) == 10218,
        srgb_decode(111) == 10417,
        srgb_decode(112) == 10618,
        srgb_decode(113) == 10821,
        srgb_decode(114) == 11027,
        srgb_decode(115) == 11235,
        srgb_decode(116) == 11445,
        srgb_decode(117) == 11657,
        srgb_decode(118) == 11872,
        srgb_decode(119) == 12089,
        srgb_decode(120) == 12308,
        srgb_decode(121) == 12530,
        srgb_decode(122) == 12754,
        srgb_decode(123) == 12980,
        srgb_decode(124) == 13208,
        srgb_decode(125) == 13439,
        srgb_decode(126) == 13673,
        srgb_decode(127) == 13908,
        srgb_decode(128) == 14146,
        srgb_decode(129) == 14386,
        srgb_decode(130) == 14629,
        srgb_decode(131) == 14874,
        srgb_decode(132) == 15121,
        srgb_decode(133) == 15371,
        srgb_decode(134) == 15623,
        srgb_decode(135) == 15877,
        srgb_decode(136) == 16134,
        srgb_decode(137) == 16394,
        srgb_decode(138) == 16655,
        srgb_decode(139) == 16920,
        srgb_decode(140) == 17186,
        srgb_decode(141) == 17455,
        srgb_decode(142) == 17727,
        srgb_decode(143) == 18000,
        srgb_decode(144) == 18277,
        srgb_decode(145) == 18556,
        srgb_decode(146) == 18837,
        srgb_decode(147) == 19121,
        srgb_decode(148) == 19407,
        srgb_decode(149) == 19696,
        srgb_decode(150) == 19987,
        srgb_decode(151) == 20281,
        srgb_decode(152) == 20577,
        srgb_decode(153) == 20875,
        srgb_decode(154) == 21177,
        srgb_decode(155) == 21480,
        srgb_decode(156) == 21787,
        srgb_decode(157) == 22096,
        srgb_decode(158) == 22407,
        srgb_decode(159) == 22721,
        srgb_decode(160) == 23037,
        srgb_decode(161) == 23356,
        srgb_decode(162) == 23678,
        srgb_decode(163) == 24002,
        srgb_decode(164) == 24329,
        srgb_decode(165) == 24658,
        srgb_decode(166) == 24990,
        srgb_decode(167) == 25324,
        srgb_decode(168) == 25661,
        srgb_decode(169) == 26001,
        srgb_decode(170) == 26343,
        srgb_decode(171) == 26688,
        srgb_decode(172) == 27035,
        srgb_decode(173) == 27386,
        srgb_decode(174) == 27738,
        srgb_decode(175) == 28094,
        srgb_decode(176) == 28452,
        srgb_decode(177) == 28812,
        srgb_decode(178) == 29176,
        srgb_decode(179) == 29542,
        srgb_decode(180) == 29910,
        srgb_decode(181) == 30282,
        srgb_decode(182) == 30656,
        srgb_decode(183) == 31032,
        srgb_decode(184) == 31412,
        srgb_decode(185) == 31794,
        srgb_decode(186) == 32179,
        srgb_decode(187) == 32566,
        srgb_decode(188) == 32956,
        srgb_decode(189) == 33349,
        srgb_decode(190) == 33745,
        srgb_decode(191) == 34143,
        srgb_decode(192) == 34544,
        srgb_decode(193) == 34948,
        srgb_decode(194) == 35354,
        srgb_decode(195) == 35764,
        srgb_decode(196) == 36176,
        srgb_decode(197) == 36590,
        srgb_decode(198) == 37008,
        srgb_decode(199) == 37428,
        srgb_decode(200) == 37851,
        srgb_decode(201) == 38277,
        srgb_decode(202) == 38706,
        srgb_decode(203) == 39137,
        srgb_decode(204) == 39571,
        srgb_decode(205) == 40008,
        srgb_decode(206) == 40448,
        srgb_decode(207) == 40891,
        srgb_decode(208) == 41336,
        srgb_decode(209) == 41784,
        srgb_decode(210) == 42235,
        srgb_decode(211) == 42689,
        srgb_decode(212) == 43146,
        srgb_decode(213) == 43606,
        srgb_decode(214) == 44068,
        srgb_decode(215) == 44533,
        srgb_decode(216) == 45001,
        srgb_decode(217) == 45472,
        srgb_decode(218) == 45946,
        srgb_decode(219) == 46423,
        srgb_decode(220) == 46902,
        srgb_decode(221) == 47385,
        srgb_decode(222) == 47870,
        srgb_decode(223) == 48358,
        srgb_decode(224) == 48850,
        srgb_decode(225) == 49344,
        srgb_decode(226) == 49840,
        srgb_decode(227) == 50340,
        srgb_decode(228) == 50843,
        srgb_decode(229) == 51349,
        srgb_decode(230) == 51857,
        srgb_decode(231) == 52369,
        srgb_decode(232) == 52883,
        srgb_decode(233) == 53400,
        srgb_decode(234) == 53921,
        srgb_decode(235) == 54444,
        srgb_decode(236) == 54970,
        srgb_decode(237) == 55499,
        srgb_decode(238) == 56031,
        srgb_decode(239) == 56567,
        srgb_decode(240) == 57105,
        srgb_decode(241) == 57646,
        srgb_decode(242) == 58190,
        srgb_decode(243) == 58737,
        srgb_decode(244) == 59286,
        srgb_decode(245) == 59839,
        srgb_decode(246) == 60395,
        srgb_decode(247) == 60954,
        srgb_decode(248) == 61516,
        srgb_decode(249) == 62081,
        srgb_decode(250) == 62649,
        srgb_decode(251) == 63220,
        srgb_decode(252) == 63794,
        srgb_decode(253) == 64371,
        srgb_decode(254) == 64951,
        srgb_decode(255) == 65535,
{
    lemma_decode_low(0, 0);
    lemma_decode_low(1, 19);
    lemma_decode_low(2, 39);
    lemma_decode_low(3, 59);
    lemma_decode_low(4, 79);
    lemma_decode_low(5, 99);
    lemma_decode_low(6, 119);
    lemma_decode_low(7, 139);
    lemma_decode_low(8, 159);
    lemma_decode_low(9, 179);
    lemma_decode_low(10, 198);
    lemma_decode_values_0();
    lemma_decode_values_1();
    lemma_decode_values_2();
    lemma_decode_values_3();
    lemma_decode_values_4();
    lemma_decode_values_5();
    lemma_decode_values_6();
    lemma_decode_values_7();
    lemma_decode_values_8();
    lemma_decode_values_9();
    lemma_decode_values_10();
    lemma_decode_values_11();
    lemma_decode_values_12();
    lemma_decode_values_13();
    lemma_decode_values_14();
    lemma_decode_values_15();
    lemma_decode_values_16();
    lemma_decode_values_17();
    lemma_decode_values_18();
    lemma_decode_values_19();
    lemma_decode_values_20();
    lemma_decode_values_21();
    lemma_decode_values_22();
    lemma_decode_values_23();
    lemma_decode_values_24();
    lemma_decode_values_25();
    lemma_decode_values_26();
    lemma_decode_values_27();
    lemma_decode_values_28();
    lemma_decode_values_29();
    lemma_decode_values_30();
    lemma_decode_values_31();
    lemma_decode_values_32();
    lemma_decode_values_33();
    lemma_decode_values_34();
    lemma_decode_values_35();
    lemma_decode_values_36();
    lemma_decode_values_37();
    lemma_decode_values_38();
    lemma_decode_values_39();
    lemma_decode_values_40();
    lemma_decode_values_41();
    lemma_decode_values_42();
    lemma_decode_values_43();
    lemma_decode_values_44();
    lemma_decode_values_45();
    lemma_decode_values_46();
    lemma_decode_values_47();
    lemma_decode_values_48();
}

/// Decoding is strictly increasing: distinct bytes decode to distinct
/// linear values, in order.
pub proof fn lemma_decode_strictly_increasing(a: int, b: int)
    requires
        0 <= a < b <= 255,
    ensures
        srgb_decode(a) < srgb_decode(b),
    decreases b - a,
{
    lemma_decode_step(b - 1);
    if a < b - 1 {
        lemma_decode_strictly_increasing(a, b - 1);
    }
}

proof fn lemma_decode_step(b: int)
    requires
        0 <= b < 255,
    ensures
        srgb_decode(b) < srgb_decode(b + 1),
{
    lemma_decode_values();
    assert(
        b == 0 || b == 1 || b == 2 || b == 3 || b == 4 || b == 5 || b == 6 || b == 7 ||
            b == 8 || b == 9 || b == 10 || b == 11 || b == 12 || b == 13 || b == 14 ||
            b == 15 || b == 16 || b == 17 || b == 18 || b == 19 || b == 20 || b == 21 ||
            b == 22 || b == 23 || b == 24 || b == 25 || b == 26 || b == 27 || b == 28 ||
            b == 29 || b == 30 || b == 31 || b == 32 || b == 33 || b == 34 || b == 35 ||
            b == 36 || b == 37 || b == 38 || b == 39 || b == 40 || b == 41 || b == 42 ||
            b == 43 || b == 44 || b == 45 || b == 46 || b == 47 || b == 48 || b == 49 ||
            b == 50 || b == 51 || b == 52 || b == 53 || b == 54 || b == 55 || b == 56 ||
            b == 57 || b == 58 || b == 59 || b == 60 || b == 61 || b == 62 || b == 63 ||
            b == 64 || b == 65 || b == 66 || b == 67 || b == 68 || b == 69 || b == 70 ||
            b == 71 || b == 72 || b == 73 || b == 74 || b == 75 || b == 76 || b == 77 ||
            b == 78 || b == 79 || b == 80 || b == 81 || b == 82 || b == 83 || b == 84 ||
            b == 85 || b == 86 || b == 87 || b == 88 || b == 89 || b == 90 || b == 91 ||
            b == 92 || b == 93 || b == 94 || b == 95 || b == 96 || b == 97 || b == 98 ||
            b == 99 || b == 100 || b == 101 || b == 102 || b == 103 || b == 104 || b == 105 ||
            b == 106 || b == 107 || b == 108 || b == 109 || b == 110 || b == 111 || b == 112 ||
            b == 113 || b == 114 || b == 115 || b == 116 || b == 117 || b == 118 || b == 119 ||
            b == 120 || b == 121 || b == 122 || b == 123 || b == 124 || b == 125 || b == 126 ||
            b == 127 || b == 128 || b == 129 || b == 130 || b == 131 || b == 132 || b == 133 ||
            b == 134 || b == 135 || b == 136 || b == 137 || b == 138 || b == 139 || b == 140 ||
            b == 141 || b == 142 || b == 143 || b == 144 || b == 145 || b == 146 || b == 147 ||
            b == 148 || b == 149 || b == 150 || b == 151 || b == 152 || b == 153 || b == 154 ||
            b == 155 || b == 156 || b == 157 || b == 158 || b == 159 || b == 160 || b == 161 ||
            b == 162 || b == 163 || b == 164 || b == 165 || b == 166 || b == 167 || b == 168 ||
            b == 169 || b == 170 || b == 171 || b == 172 || b == 173 || b == 174 || b == 175 ||
            b == 176 || b == 177 || b == 178 || b == 179 || b == 180 || b == 181 || b == 182 ||
            b == 183 || b == 184 || b == 185 || b == 186 || b == 187 || b == 188 || b == 189 ||
            b == 190 || b == 191 || b == 192 || b == 193 || b == 194 || b == 195 || b == 196 ||
            b == 197 || b == 198 || b == 199 || b == 200 || b == 201 || b == 202 || b == 203 ||
            b == 204 || b == 205 || b == 206 || b == 207 || b == 208 || b == 209 || b == 210 ||
            b == 211 || b == 212 || b == 213 || b == 214 || b == 215 || b == 216 || b == 217 ||
            b == 218 || b == 219 || b == 220 || b == 221 || b == 222 || b == 223 || b == 224 ||
            b == 225 || b == 226 || b == 227 || b == 228 || b == 229 || b == 230 || b == 231 ||
            b == 232 || b == 233 || b == 234 || b == 235 || b == 236 || b == 237 || b == 238 ||
            b == 239 || b == 240 || b == 241 || b == 242 || b == 243 || b == 244 || b == 245 ||
            b == 246 || b == 247 || b == 248 || b == 249 || b == 250 || b == 251 || b == 252 ||
            b == 253 || b == 254
    );
}

proof fn lemma_encode_finds(x: int, b: int)
    requires
        0 <= x <= b <= 255,
    ensures
        srgb_at_most(srgb_decode(x), b) == x,
    decreases b,
{
    if b > x {
        lemma_decode_strictly_increasing(x, b);
        lemma_encode_finds(x, b - 1);
    }
}

/// Encoding a decoded byte gives the byte back: `linear_to_srgb` undoes
/// `srgb_to_linear` on all 256 byte values.
pub proof fn lemma_gamma_round_trip(x: int)
    requires
        0 <= x <= 255,
    ensures
        srgb_encode(srgb_decode(x)) == x,
{
    lemma_encode_finds(x, 255);
}

} // verus!
