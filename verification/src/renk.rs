//! Hex renk metinlerinin ("#RRGGBB" ya da "#RRGGBBAA") bayt bilesenlerine
//! cozumlenmesi.

use vstd::prelude::*;
use vstd::string::*;
use vstd::utf8::encode_utf8;
use crate::metin::{Kirpma, bastan_kirp, karakterler};

verus! {

/// Bir rengin kirmizi, yesil, mavi ve alfa baytlari.
#[derive(Clone, Copy, Debug, PartialEq, Eq, Structural)]
pub struct Rgba {
    pub r: u8,
    pub g: u8,
    pub b: u8,
    pub a: u8,
}

/// On altilik bir basamagin degeri (`char::to_digit(16)`).
pub open spec fn onaltilik_basamak(c: char) -> Option<int> {
    if '0' <= c && c <= '9' {
        Some(c as int - '0' as int)
    } else if 'a' <= c && c <= 'f' {
        Some(c as int - 'a' as int + 10)
    } else if 'A' <= c && c <= 'F' {
        Some(c as int - 'A' as int + 10)
    } else {
        None
    }
}

pub open spec fn tumu_onaltilik(s: Seq<char>) -> bool {
    forall|i: int| 0 <= i < s.len() ==> #[trigger] onaltilik_basamak(s[i]) is Some
}

/// Basamak dizisinin on altilik sayi degeri.
pub open spec fn onaltilik_deger(s: Seq<char>) -> int
    decreases s.len(),
{
    if s.len() == 0 {
        0
    } else {
        onaltilik_deger(s.drop_last()) * 16 + onaltilik_basamak(s.last()).unwrap()
    }
}

/// `u32::from_str_radix(s, 16).unwrap_or(0)`: istege bagli bir `+` isaretinden
/// sonra bos olmayan on altilik basamaklar; gecersiz ya da `u32`'ye sigmayan
/// metin 0 verir.
pub open spec fn u32_onaltilik(s: Seq<char>) -> u32 {
    let rakamlar = if s.len() > 0 && s[0] == '+' {
        s.drop_first()
    } else {
        s
    };
    if rakamlar.len() == 0 || !tumu_onaltilik(rakamlar) || onaltilik_deger(rakamlar)
        > u32::MAX {
        0
    } else {
        onaltilik_deger(rakamlar) as u32
    }
}

/// Bastaki tum `#` karakterleri atildiktan sonraki metin.
pub open spec fn diyezsiz(s: Seq<char>) -> Seq<char> {
    bastan_kirp(s, Kirpma::Karakter('#'))
}

/// Sayiyi renk baytlarina boler: `uzun` ise RRGGBBAA, degilse RRGGBB (alfa 255).
pub open spec fn baytlara_bol(d: int, uzun: bool) -> Rgba {
    if uzun {
        Rgba {
            r: (d / 0x1000000 % 256) as u8,
            g: (d / 0x10000 % 256) as u8,
            b: (d / 0x100 % 256) as u8,
            a: (d % 256) as u8,
        }
    } else {
        Rgba { r: (d / 0x10000 % 256) as u8, g: (d / 0x100 % 256) as u8, b: (d % 256) as u8, a: 255 }
    }
}

/// Hex metninin renk baytlari: bastaki `#`'ler atilir, kalan metin on altilik
/// sayi olarak okunur (gecersizse 0). Kalan metnin UTF-8 uzunlugu 6 bayttan
/// fazlaysa sayi RRGGBBAA, degilse RRGGBB olarak bolunur ve alfa 255 olur.
pub open spec fn hex_rgba_degeri(s: Seq<char>) -> Rgba {
    let h = diyezsiz(s);
    baytlara_bol(u32_onaltilik(h) as int, encode_utf8(h).len() > 6)
}

fn baytlara_ayir(d: u32, uzun: bool) -> (r: Rgba)
    ensures
        r == baytlara_bol(d as int, uzun),
{
    if uzun {
        Rgba {
            r: (d / 0x1000000 % 256) as u8,
            g: (d / 0x10000 % 256) as u8,
            b: (d / 0x100 % 256) as u8,
            a: (d % 256) as u8,
        }
    } else {
        Rgba { r: (d / 0x10000 % 256) as u8, g: (d / 0x100 % 256) as u8, b: (d % 256) as u8, a: 255 }
    }
}

fn basamak(c: char) -> (r: Option<u32>)
    ensures
        match r {
            Some(d) => onaltilik_basamak(c) == Some(d as int) && d < 16,
            None => onaltilik_basamak(c) is None,
        },
{
    if '0' <= c && c <= '9' {
        Some((c as u32) - ('0' as u32))
    } else if 'a' <= c && c <= 'f' {
        Some((c as u32) - ('a' as u32) + 10)
    } else if 'A' <= c && c <= 'F' {
        Some((c as u32) - ('A' as u32) + 10)
    } else {
        None
    }
}

/// On altilik deger, basamak eklendikce kuculmez.
proof fn onaltilik_deger_onek(s: Seq<char>, k: int)
    requires
        0 <= k <= s.len(),
        tumu_onaltilik(s),
    ensures
        0 <= onaltilik_deger(s.take(k)) <= onaltilik_deger(s),
    decreases s.len(),
{
    if s.len() > 0 {
        let t = s.drop_last();
        assert(tumu_onaltilik(t)) by {
            assert forall|i: int| 0 <= i < t.len() implies #[trigger] onaltilik_basamak(t[i]) is Some by {
                assert(t[i] == s[i]);
            }
        }
        assert(onaltilik_basamak(s[s.len() - 1]) is Some);
        if k < s.len() {
            onaltilik_deger_onek(t, k);
            assert(t.take(k) =~= s.take(k));
        } else {
            onaltilik_deger_onek(t, 0);
            assert(s.take(k) =~= s);
        }
    } else {
        assert(s.take(k) =~= s);
    }
}

/// `v[bas..]` metnini `u32::from_str_radix(.., 16).unwrap_or(0)` gibi okur.
fn u32_oku(v: &Vec<char>, bas: usize) -> (d: u32)
    requires
        bas <= v@.len(),
    ensures
        d == u32_onaltilik(v@.skip(bas as int)),
{
    let n = v.len();
    let ghost s = v@.skip(bas as int);
    let mut i = bas;
    if i < n && v[i] == '+' {
        i = i + 1;
    }
    let ghost rakamlar = v@.skip(i as int);
    assert(rakamlar =~= (if s.len() > 0 && s[0] == '+' { s.drop_first() } else { s }));
    assert(u32_onaltilik(s) == (if rakamlar.len() == 0 || !tumu_onaltilik(rakamlar)
        || onaltilik_deger(rakamlar) > u32::MAX { 0 } else { onaltilik_deger(rakamlar) as u32 }));
    if i == n {
        return 0;
    }
    let ilk = i;
    let mut acc: u64 = 0;
    assert(v@.subrange(ilk as int, ilk as int) =~= Seq::<char>::empty());
    while i < n
        invariant
            n == v@.len(),
            ilk <= i <= n,
            rakamlar == v@.skip(ilk as int),
            u32_onaltilik(v@.skip(bas as int)) == (if rakamlar.len() == 0 || !tumu_onaltilik(rakamlar)
                || onaltilik_deger(rakamlar) > u32::MAX { 0 } else { onaltilik_deger(rakamlar) as u32 }),
            tumu_onaltilik(v@.subrange(ilk as int, i as int)),
            acc == onaltilik_deger(v@.subrange(ilk as int, i as int)),
            acc <= u32::MAX,
        decreases n - i,
    {
        let ghost onceki = v@.subrange(ilk as int, i as int);
        let ghost sonraki = v@.subrange(ilk as int, i + 1);
        assert(sonraki.drop_last() =~= onceki);
        assert(sonraki.last() == v@[i as int]);
        match basamak(v[i]) {
            None => {
                assert(rakamlar[i - ilk] == v@[i as int]);
                assert(!tumu_onaltilik(rakamlar));
                return 0;
            },
            Some(b) => {
                assert(onaltilik_deger(sonraki) == onaltilik_deger(onceki) * 16 + b);
                acc = acc * 16 + (b as u64);
                assert(tumu_onaltilik(sonraki)) by {
                    assert forall|j: int| 0 <= j < sonraki.len() implies #[trigger] onaltilik_basamak(sonraki[j]) is Some by {
                        if j < onceki.len() {
                            assert(sonraki[j] == onceki[j]);
                        }
                    }
                }
                i = i + 1;
                if acc > 0xFFFF_FFFF {
                    proof {
                        if tumu_onaltilik(rakamlar) {
                            assert(rakamlar.take(i - ilk) =~= sonraki);
                            onaltilik_deger_onek(rakamlar, i - ilk);
                        }
                    }
                    return 0;
                }
            },
        }
    }
    assert(v@.subrange(ilk as int, n as int) =~= rakamlar);
    acc as u32
}

/// Bir karakterin UTF-8 kodlamasindaki bayt sayisi.
fn utf8_genisligi(c: char) -> (w: usize)
    ensures
        w == vstd::utf8::encode_scalar(c as u32).len(),
{
    proof {
        vstd::utf8::char_is_scalar(c);
    }
    let u = c as u32;
    if u <= 0x7F {
        1
    } else if u <= 0x7FF {
        2
    } else if u <= 0xFFFF {
        3
    } else {
        4
    }
}

/// `v[bas..]` karakterlerinin UTF-8 kodlamasi 6 bayttan uzun mu.
fn alti_bayttan_uzun(v: &Vec<char>, bas: usize) -> (r: bool)
    requires
        bas <= v@.len(),
    ensures
        r == (encode_utf8(v@.skip(bas as int)).len() > 6),
{
    let n = v.len();
    let mut i = bas;
    let mut toplam: usize = 0;
    assert(v@.skip(bas as int) =~= v@.skip(i as int));
    while i < n
        invariant
            n == v@.len(),
            bas <= i <= n,
            toplam <= 6,
            encode_utf8(v@.skip(bas as int)).len() == toplam + encode_utf8(v@.skip(i as int)).len(),
        decreases n - i,
    {
        let ghost kalan = v@.skip(i as int);
        assert(kalan.drop_first() =~= v@.skip(i + 1));
        assert(kalan[0] == v@[i as int]);
        assert(encode_utf8(kalan) == vstd::utf8::encode_scalar(kalan[0] as u32) + encode_utf8(kalan.drop_first()));
        toplam = toplam + utf8_genisligi(v[i]);
        i = i + 1;
        if toplam > 6 {
            return true;
        }
    }
    assert(v@.skip(n as int) =~= Seq::<char>::empty());
    false
}

/// "#RRGGBB" ya da "#RRGGBBAA" hex metnini renk baytlarina cevirir; gecersiz
/// metin siyah (alfa kurala gore) verir.
pub fn hex_rgba(hex: &str) -> (r: Rgba)
    ensures
        r == hex_rgba_degeri(hex@),
{
    let v = karakterler(hex);
    let n = v.len();
    let mut k: usize = 0;
    assert(v@.skip(0) =~= v@);
    while k < n && v[k] == '#'
        invariant
            n == v@.len(),
            k <= n,
            forall|j: int| 0 <= j < k ==> v@[j] == '#',
            bastan_kirp(v@, Kirpma::Karakter('#')) == bastan_kirp(v@.skip(k as int), Kirpma::Karakter('#')),
        decreases n - k,
    {
        assert(v@.skip(k as int).drop_first() =~= v@.skip(k + 1));
        k = k + 1;
    }
    assert(bastan_kirp(v@.skip(k as int), Kirpma::Karakter('#')) == v@.skip(k as int));
    let uzun = alti_bayttan_uzun(&v, k);
    let d = u32_oku(&v, k);
    baytlara_ayir(d, uzun)
}

/// Iki on altilik basamagin olusturdugu bayt.
pub open spec fn bayt_degeri(yuksek: char, dusuk: char) -> int {
    onaltilik_basamak(yuksek).unwrap() * 16 + onaltilik_basamak(dusuk).unwrap()
}

/// ASCII karakterlerin UTF-8 kodlamasi karakter basina bir bayttir.
proof fn ascii_uzunlugu(s: Seq<char>)
    requires
        forall|i: int| 0 <= i < s.len() ==> (#[trigger] s[i] as u32) < 0x80,
    ensures
        encode_utf8(s).len() == s.len(),
    decreases s.len(),
{
    if s.len() > 0 {
        let t = s.drop_first();
        assert forall|i: int| 0 <= i < t.len() implies (#[trigger] t[i] as u32) < 0x80 by {
            assert(t[i] == s[i + 1]);
        }
        ascii_uzunlugu(t);
    }
}

proof fn alti_basamak_bolumu(a: int, b: int, c: int, d: int, e: int, f: int)
    by (nonlinear_arith)
    requires
        0 <= a < 16, 0 <= b < 16, 0 <= c < 16, 0 <= d < 16, 0 <= e < 16, 0 <= f < 16,
    ensures
        ({
            let n = ((((a * 16 + b) * 16 + c) * 16 + d) * 16 + e) * 16 + f;
            &&& 0 <= n < 0x1000000
            &&& n / 0x10000 % 256 == a * 16 + b
            &&& n / 0x100 % 256 == c * 16 + d
            &&& n % 256 == e * 16 + f
        }),
{
}

proof fn sekiz_basamak_bolumu(a: int, b: int, c: int, d: int, e: int, f: int, g: int, h: int)
    by (nonlinear_arith)
    requires
        0 <= a < 16, 0 <= b < 16, 0 <= c < 16, 0 <= d < 16, 0 <= e < 16, 0 <= f < 16,
        0 <= g < 16, 0 <= h < 16,
    ensures
        ({
            let n = ((((((a * 16 + b) * 16 + c) * 16 + d) * 16 + e) * 16 + f) * 16 + g) * 16 + h;
            &&& 0 <= n <= 0xFFFF_FFFF
            &&& n / 0x1000000 % 256 == a * 16 + b
            &&& n / 0x10000 % 256 == c * 16 + d
            &&& n / 0x100 % 256 == e * 16 + f
            &&& n % 256 == g * 16 + h
        }),
{
}

/// "#RRGGBB": alti on altilik basamak sirasiyla kirmizi, yesil ve mavi
/// baytlarini verir ve renk tam opaktir.
pub proof fn hex_alti_basamak(h: Seq<char>)
    requires
        h.len() == 6,
        tumu_onaltilik(h),
    ensures
        hex_rgba_degeri(seq!['#'] + h) == (Rgba {
            r: bayt_degeri(h[0], h[1]) as u8,
            g: bayt_degeri(h[2], h[3]) as u8,
            b: bayt_degeri(h[4], h[5]) as u8,
            a: 255,
        }),
{
    let s = seq!['#'] + h;
    assert(s.drop_first() =~= h);
    assert(onaltilik_basamak(h[0]) is Some);
    assert(bastan_kirp(h, Kirpma::Karakter('#')) == h);
    assert(diyezsiz(s) == h);
    assert forall|i: int| 0 <= i < h.len() implies (#[trigger] h[i] as u32) < 0x80 by {
        assert(onaltilik_basamak(h[i]) is Some);
    }
    ascii_uzunlugu(h);
    let d0 = onaltilik_basamak(h[0]).unwrap();
    let d1 = onaltilik_basamak(h[1]).unwrap();
    let d2 = onaltilik_basamak(h[2]).unwrap();
    let d3 = onaltilik_basamak(h[3]).unwrap();
    let d4 = onaltilik_basamak(h[4]).unwrap();
    let d5 = onaltilik_basamak(h[5]).unwrap();
    assert(onaltilik_basamak(h[1]) is Some && onaltilik_basamak(h[2]) is Some && onaltilik_basamak(h[3]) is Some
        && onaltilik_basamak(h[4]) is Some && onaltilik_basamak(h[5]) is Some);
    assert(onaltilik_deger(h) == ((((d0 * 16 + d1) * 16 + d2) * 16 + d3) * 16 + d4) * 16 + d5) by {
        reveal_with_fuel(onaltilik_deger, 7);
        assert(h.drop_last().drop_last().drop_last().drop_last().drop_last().drop_last() =~= Seq::<char>::empty());
    }
    alti_basamak_bolumu(d0, d1, d2, d3, d4, d5);
}

/// "#RRGGBBAA": sekiz on altilik basamak sirasiyla kirmizi, yesil, mavi ve
/// alfa baytlarini verir.
pub proof fn hex_sekiz_basamak(h: Seq<char>)
    requires
        h.len() == 8,
        tumu_onaltilik(h),
    ensures
        hex_rgba_degeri(seq!['#'] + h) == (Rgba {
            r: bayt_degeri(h[0], h[1]) as u8,
            g: bayt_degeri(h[2], h[3]) as u8,
            b: bayt_degeri(h[4], h[5]) as u8,
            a: bayt_degeri(h[6], h[7]) as u8,
        }),
{
    let s = seq!['#'] + h;
    assert(s.drop_first() =~= h);
    assert(onaltilik_basamak(h[0]) is Some);
    assert(bastan_kirp(h, Kirpma::Karakter('#')) == h);
    assert(diyezsiz(s) == h);
    assert forall|i: int| 0 <= i < h.len() implies (#[trigger] h[i] as u32) < 0x80 by {
        assert(onaltilik_basamak(h[i]) is Some);
    }
    ascii_uzunlugu(h);
    let d0 = onaltilik_basamak(h[0]).unwrap();
    let d1 = onaltilik_basamak(h[1]).unwrap();
    let d2 = onaltilik_basamak(h[2]).unwrap();
    let d3 = onaltilik_basamak(h[3]).unwrap();
    let d4 = onaltilik_basamak(h[4]).unwrap();
    let d5 = onaltilik_basamak(h[5]).unwrap();
    let d6 = onaltilik_basamak(h[6]).unwrap();
    let d7 = onaltilik_basamak(h[7]).unwrap();
    assert(onaltilik_basamak(h[1]) is Some && onaltilik_basamak(h[2]) is Some && onaltilik_basamak(h[3]) is Some
        && onaltilik_basamak(h[4]) is Some && onaltilik_basamak(h[5]) is Some
        && onaltilik_basamak(h[6]) is Some && onaltilik_basamak(h[7]) is Some);
    assert(onaltilik_deger(h) == ((((((d0 * 16 + d1) * 16 + d2) * 16 + d3) * 16 + d4) * 16 + d5) * 16 + d6) * 16 + d7) by {
        reveal_with_fuel(onaltilik_deger, 9);
        assert(h.drop_last().drop_last().drop_last().drop_last().drop_last().drop_last().drop_last().drop_last() =~= Seq::<char>::empty());
    }
    sekiz_basamak_bolumu(d0, d1, d2, d3, d4, d5, d6, d7);
}

/// On altilik basamak karakteri: '0'-'9', 'a'-'f' ya da 'A'-'F'.
pub open spec fn onaltilik_karakter(c: char) -> bool {
    ||| '0' <= c && c <= '9'
    ||| 'a' <= c && c <= 'f'
    ||| 'A' <= c && c <= 'F'
}

/// Basamak degerleri `char::to_digit(16)` ile aynidir: '0'-'9' 0-9 verir,
/// hem 'a'-'f' hem 'A'-'F' 10-15 verir (kucuk ve buyuk harf ayni degerdedir);
/// baska hicbir karakter basamak degildir.
pub proof fn basamak_degerleri(c: char)
    ensures
        '0' <= c && c <= '9' ==> onaltilik_basamak(c) == Some(c as int - 48),
        'a' <= c && c <= 'f' ==> onaltilik_basamak(c) == Some(c as int - 87),
        'A' <= c && c <= 'F' ==> onaltilik_basamak(c) == Some(c as int - 55),
        onaltilik_basamak(c) is Some <==> onaltilik_karakter(c),
        onaltilik_basamak('f') == Some(15int),
        onaltilik_basamak('F') == Some(15int),
        onaltilik_basamak('a') == Some(10int),
        onaltilik_basamak('A') == Some(10int),
        onaltilik_basamak('9') == Some(9int),
        onaltilik_basamak('g') is None,
{
}

/// Harf buyuklugu rengi degistirmez: alti basamakli bir "#RRGGBB" metninde
/// kucuk harfli basamaklarin herhangi birinin buyuk harflisiyle degistirilmesi
/// ayni baytlari verir.
pub proof fn hex_harf_buyuklugu_onemsiz(h: Seq<char>, k: Seq<char>)
    requires
        h.len() == 6,
        k.len() == 6,
        forall|i: int| 0 <= i < 6 ==> onaltilik_karakter(#[trigger] h[i]),
        forall|i: int| 0 <= i < 6 ==> #[trigger] k[i] == h[i]
            || ('a' <= h[i] && h[i] <= 'f' && k[i] as int == h[i] as int - 32),
    ensures
        hex_rgba_degeri(seq!['#'] + h) == hex_rgba_degeri(seq!['#'] + k),
{
    assert forall|i: int| 0 <= i < 6 implies onaltilik_basamak(#[trigger] h[i]) is Some
        && onaltilik_basamak(k[i]) == onaltilik_basamak(h[i]) by {
        assert(onaltilik_karakter(h[i]));
        assert(k[i] == h[i] || ('a' <= h[i] && h[i] <= 'f' && k[i] as int == h[i] as int - 32));
    }
    assert(tumu_onaltilik(h));
    assert forall|i: int| 0 <= i < k.len() implies #[trigger] onaltilik_basamak(k[i]) is Some by {
        assert(onaltilik_basamak(h[i]) is Some);
    }
    assert(tumu_onaltilik(k));
    hex_alti_basamak(h);
    hex_alti_basamak(k);
    assert(onaltilik_basamak(k[0]) == onaltilik_basamak(h[0]));
    assert(onaltilik_basamak(k[1]) == onaltilik_basamak(h[1]));
    assert(onaltilik_basamak(k[2]) == onaltilik_basamak(h[2]));
    assert(onaltilik_basamak(k[3]) == onaltilik_basamak(h[3]));
    assert(onaltilik_basamak(k[4]) == onaltilik_basamak(h[4]));
    assert(onaltilik_basamak(k[5]) == onaltilik_basamak(h[5]));
}

/// "#" ve alti on altilik basamak: baytlar basamaklarin on altilik okunusudur
/// ('0'-'9' 0-9, 'a'-'f' ve 'A'-'F' 10-15), alfa 255. Ornegin "#ffffff" beyazdir.
pub proof fn hex_alti_basamak_degeri(h: Seq<char>)
    requires
        h.len() == 6,
        forall|i: int| 0 <= i < 6 ==> onaltilik_karakter(#[trigger] h[i]),
    ensures
        ({
            let v = |c: char| if c <= '9' { c as int - 48 } else if c <= 'F' { c as int - 55 } else { c as int - 87 };
            hex_rgba_degeri(seq!['#'] + h) == (Rgba {
                r: (v(h[0]) * 16 + v(h[1])) as u8,
                g: (v(h[2]) * 16 + v(h[3])) as u8,
                b: (v(h[4]) * 16 + v(h[5])) as u8,
                a: 255,
            })
        }),
        hex_rgba_degeri(seq!['#', 'f', 'f', 'f', 'f', 'f', 'f']) == (Rgba { r: 255, g: 255, b: 255, a: 255 }),
{
    assert forall|i: int| 0 <= i < h.len() implies #[trigger] onaltilik_basamak(h[i]) is Some by {
        assert(onaltilik_karakter(h[i]));
    }
    assert(tumu_onaltilik(h));
    hex_alti_basamak(h);
    let w = seq!['f', 'f', 'f', 'f', 'f', 'f'];
    assert(tumu_onaltilik(w));
    hex_alti_basamak(w);
    assert(seq!['#'] + w =~= seq!['#', 'f', 'f', 'f', 'f', 'f', 'f']);
    assert(onaltilik_karakter(h[0]) && onaltilik_karakter(h[1]) && onaltilik_karakter(h[2])
        && onaltilik_karakter(h[3]) && onaltilik_karakter(h[4]) && onaltilik_karakter(h[5]));
}

} // verus!
