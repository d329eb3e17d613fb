//! Metin yardimcilari: karakter dizileri uzerinde kirpma, bolme, arama ve
//! esitlik; her biri std'nin ilgili `str` isleminin anlamiyla tanimlanir.

use vstd::prelude::*;
use vstd::string::*;

verus! {

/// Unicode `White_Space` ozelligine sahip karakterler (`char::is_whitespace`).
pub open spec fn bosluk_mu(c: char) -> bool {
    let u = c as u32;
    ||| 0x9 <= u <= 0xD
    ||| u == 0x20
    ||| u == 0x85
    ||| u == 0xA0
    ||| u == 0x1680
    ||| 0x2000 <= u <= 0x200A
    ||| u == 0x2028
    ||| u == 0x2029
    ||| u == 0x202F
    ||| u == 0x205F
    ||| u == 0x3000
}

/// Kirpma olcutu: bosluk karakterleri ya da tek bir karakter.
#[derive(Clone, Copy)]
pub enum Kirpma {
    Bosluk,
    Karakter(char),
}

pub open spec fn kirpilir_mi(k: Kirpma, c: char) -> bool {
    match k {
        Kirpma::Bosluk => bosluk_mu(c),
        Kirpma::Karakter(d) => c == d,
    }
}

/// Bastaki kirpilacak karakterleri atar (`trim_start_matches`).
pub open spec fn bastan_kirp(s: Seq<char>, k: Kirpma) -> Seq<char>
    decreases s.len(),
{
    if s.len() > 0 && kirpilir_mi(k, s[0]) {
        bastan_kirp(s.drop_first(), k)
    } else {
        s
    }
}

/// Sondaki kirpilacak karakterleri atar (`trim_end_matches`).
pub open spec fn sondan_kirp(s: Seq<char>, k: Kirpma) -> Seq<char>
    decreases s.len(),
{
    if s.len() > 0 && kirpilir_mi(k, s.last()) {
        sondan_kirp(s.drop_last(), k)
    } else {
        s
    }
}

/// Iki uctan kirpma (`trim` / `trim_matches`).
pub open spec fn kirp(s: Seq<char>, k: Kirpma) -> Seq<char> {
    sondan_kirp(bastan_kirp(s, k), k)
}

/// `s`'yi `ayrac` karakterinden boler (`str::split`); bos metin tek bos parca verir.
pub open spec fn bol(s: Seq<char>, ayrac: char) -> Seq<Seq<char>>
    decreases s.len(),
{
    if s.len() == 0 {
        seq![Seq::<char>::empty()]
    } else {
        let once = bol(s.drop_last(), ayrac);
        if s.last() == ayrac {
            once.push(Seq::<char>::empty())
        } else {
            once.update(once.len() - 1, once.last().push(s.last()))
        }
    }
}

/// `c`'nin `s` icindeki ilk konumu.
pub open spec fn ilk_konum(s: Seq<char>, c: char) -> Option<int>
    decreases s.len(),
{
    if s.len() == 0 {
        None
    } else {
        match ilk_konum(s.drop_last(), c) {
            Some(i) => Some(i),
            None => if s.last() == c {
                Some(s.len() - 1)
            } else {
                None
            },
        }
    }
}

/// `s`'nin `i` konumunda `aranan` gecer.
pub open spec fn burada_gecer(s: Seq<char>, aranan: Seq<char>, i: int) -> bool {
    0 <= i && i + aranan.len() <= s.len() && s.subrange(i, i + aranan.len()) == aranan
}

/// `s` icinde `aranan` gecer (`str::contains`).
pub open spec fn icerir(s: Seq<char>, aranan: Seq<char>) -> bool {
    exists|i: int| burada_gecer(s, aranan, i)
}

/// `s`, `on` ile baslar (`str::starts_with`).
pub open spec fn ile_baslar(s: Seq<char>, on: Seq<char>) -> bool {
    on.len() <= s.len() && s.take(on.len() as int) == on
}

/// Bir `&str`'nin karakterlerini sirasiyla verir.
pub fn karakterler(s: &str) -> (v: Vec<char>)
    ensures
        v@ == s@,
{
    let n = s.unicode_len();
    let mut v: Vec<char> = Vec::new();
    let mut i: usize = 0;
    while i < n
        invariant
            n == s@.len(),
            i <= n,
            v@ == s@.take(i as int),
        decreases n - i,
    {
        let c = s.get_char(i);
        v.push(c);
        i = i + 1;
        assert(v@ =~= s@.take(i as int));
    }
    assert(v@ =~= s@);
    v
}

/// `char::is_whitespace`.
pub fn bosluk(c: char) -> (b: bool)
    ensures
        b == bosluk_mu(c),
{
    let u = c as u32;
    (0x9 <= u && u <= 0xD) || u == 0x20 || u == 0x85 || u == 0xA0 || u == 0x1680 || (0x2000
        <= u && u <= 0x200A) || u == 0x2028 || u == 0x2029 || u == 0x202F || u == 0x205F || u
        == 0x3000
}

fn kirpilir(k: Kirpma, c: char) -> (b: bool)
    ensures
        b == kirpilir_mi(k, c),
{
    match k {
        Kirpma::Bosluk => bosluk(c),
        Kirpma::Karakter(d) => c == d,
    }
}

/// `v[bas..son]` araligini iki uctan kirpar; kirpilmis araligin sinirlarini verir.
pub fn kirpma_araligi(v: &Vec<char>, bas: usize, son: usize, k: Kirpma) -> (r: (usize, usize))
    requires
        bas <= son <= v@.len(),
    ensures
        bas <= r.0 <= r.1 <= son,
        v@.subrange(r.0 as int, r.1 as int) == kirp(v@.subrange(bas as int, son as int), k),
{
    let mut b = bas;
    while b < son && kirpilir(k, v[b])
        invariant
            bas <= b <= son <= v@.len(),
            bastan_kirp(v@.subrange(bas as int, son as int), k) == bastan_kirp(
                v@.subrange(b as int, son as int),
                k,
            ),
        decreases son - b,
    {
        assert(v@.subrange(b as int, son as int).drop_first() =~= v@.subrange(
            b + 1,
            son as int,
        ));
        b = b + 1;
    }
    assert(bastan_kirp(v@.subrange(b as int, son as int), k) == v@.subrange(b as int, son as int));
    let mut e = son;
    while e > b && kirpilir(k, v[e - 1])
        invariant
            bas <= b <= e <= son <= v@.len(),
            sondan_kirp(v@.subrange(b as int, son as int), k) == sondan_kirp(
                v@.subrange(b as int, e as int),
                k,
            ),
        decreases e - b,
    {
        assert(v@.subrange(b as int, e as int).drop_last() =~= v@.subrange(
            b as int,
            e - 1,
        ));
        e = e - 1;
    }
    (b, e)
}

/// `v`'yi `ayrac`'tan boler; her parcanin `v` icindeki `[bas, son)` araligini verir.
pub fn parcalara_bol(v: &Vec<char>, ayrac: char) -> (r: Vec<(usize, usize)>)
    ensures
        r@.len() == bol(v@, ayrac).len(),
        forall|j: int|
            0 <= j < r@.len() ==> #[trigger] r@[j].0 <= r@[j].1 <= v@.len() && v@.subrange(
                r@[j].0 as int,
                r@[j].1 as int,
            ) == bol(v@, ayrac)[j],
{
    let n = v.len();
    let mut r: Vec<(usize, usize)> = Vec::new();
    let mut bas: usize = 0;
    let mut i: usize = 0;
    assert(v@.take(0) =~= Seq::<char>::empty());
    while i < n
        invariant
            n == v@.len(),
            bas <= i <= n,
            r@.len() + 1 == bol(v@.take(i as int), ayrac).len(),
            bol(v@.take(i as int), ayrac).last() == v@.subrange(bas as int, i as int),
            forall|j: int|
                0 <= j < r@.len() ==> #[trigger] r@[j].0 <= r@[j].1 <= n && v@.subrange(
                    r@[j].0 as int,
                    r@[j].1 as int,
                ) == bol(v@.take(i as int), ayrac)[j],
        decreases n - i,
    {
        let ghost onceki = bol(v@.take(i as int), ayrac);
        assert(v@.take(i + 1).drop_last() =~= v@.take(i as int));
        assert(v@.take(i + 1).last() == v@[i as int]);
        if v[i] == ayrac {
            r.push((bas, i));
            bas = i + 1;
            assert(v@.subrange(bas as int, (i + 1) as int) =~= Seq::<char>::empty());
        } else {
            assert(v@.subrange(bas as int, (i + 1) as int) =~= v@.subrange(
                bas as int,
                i as int,
            ).push(v@[i as int]));
        }
        i = i + 1;
    }
    assert(v@.take(n as int) =~= v@);
    r.push((bas, n));
    r
}

/// `c`'nin `v` icindeki ilk konumu (`str::find` / `split_once` icin).
pub fn ilk_konumu_bul(v: &Vec<char>, c: char) -> (r: Option<usize>)
    ensures
        match r {
            Some(i) => ilk_konum(v@, c) == Some(i as int),
            None => ilk_konum(v@, c) == None::<int>,
        },
{
    let n = v.len();
    let mut i: usize = 0;
    while i < n
        invariant
            n == v@.len(),
            i <= n,
            ilk_konum(v@.take(i as int), c) == None::<int>,
        decreases n - i,
    {
        assert(v@.take(i + 1).drop_last() =~= v@.take(i as int));
        if v[i] == c {
            assert(v@.take(i + 1).last() == c);
            proof {
                ilk_konum_onek(v@, c, i + 1);
            }
            return Some(i);
        }
        i = i + 1;
    }
    assert(v@.take(n as int) =~= v@);
    None
}

/// Bir onekte bulunan ilk konum tum dizide de ilk konumdur.
proof fn ilk_konum_onek(s: Seq<char>, c: char, k: int)
    requires
        0 <= k <= s.len(),
        ilk_konum(s.take(k), c) is Some,
    ensures
        ilk_konum(s, c) == ilk_konum(s.take(k), c),
    decreases s.len() - k,
{
    if k < s.len() {
        assert(s.take(k + 1).drop_last() =~= s.take(k));
        ilk_konum_onek(s, c, k + 1);
    } else {
        assert(s.take(k) =~= s);
    }
}

/// Ilk konumdan onceki karakterlerin hicbiri `c` degildir ve o konumda `c` vardir.
pub proof fn ilk_konum_ozellikleri(s: Seq<char>, c: char)
    ensures
        match ilk_konum(s, c) {
            Some(i) => 0 <= i < s.len() && s[i] == c && forall|j: int| 0 <= j < i ==> s[j] != c,
            None => forall|j: int| 0 <= j < s.len() ==> s[j] != c,
        },
    decreases s.len(),
{
    if s.len() > 0 {
        let t = s.drop_last();
        ilk_konum_ozellikleri(t, c);
        assert(forall|j: int| 0 <= j < t.len() ==> t[j] == s[j]);
    }
}

/// Iki karakter dizisi araliginin esitligi: `a[a_bas..a_bas+n] == b[b_bas..b_bas+n]`.
pub fn aralik_esit(a: &Vec<char>, a_bas: usize, b: &Vec<char>, b_bas: usize, n: usize) -> (r: bool)
    requires
        a_bas + n <= a@.len(),
        b_bas + n <= b@.len(),
    ensures
        r == (a@.subrange(a_bas as int, a_bas + n) == b@.subrange(b_bas as int, b_bas + n)),
{
    let al = a.len();
    let bl = b.len();
    let mut i: usize = 0;
    while i < n
        invariant
            al == a@.len(),
            bl == b@.len(),
            a_bas + n <= a@.len(),
            b_bas + n <= b@.len(),
            i <= n,
            a@.subrange(a_bas as int, a_bas + i) == b@.subrange(b_bas as int, b_bas + i),
        decreases n - i,
    {
        if a[a_bas + i] != b[b_bas + i] {
            assert(a@.subrange(a_bas as int, a_bas + n)[i as int] != b@.subrange(
                b_bas as int,
                b_bas + n,
            )[i as int]);
            return false;
        }
        assert(a@.subrange(a_bas as int, a_bas + i + 1) =~= a@.subrange(a_bas as int, a_bas + i).push(a@[a_bas + i]));
        assert(b@.subrange(b_bas as int, b_bas + i + 1) =~= b@.subrange(b_bas as int, b_bas + i).push(b@[b_bas + i]));
        i = i + 1;
    }
    true
}

/// Iki karakter dizisinin esitligi (`str == str`).
pub fn diziler_esit(a: &Vec<char>, b: &Vec<char>) -> (r: bool)
    ensures
        r == (a@ == b@),
{
    if a.len() != b.len() {
        return false;
    }
    let r = aralik_esit(a, 0, b, 0, a.len());
    assert(a@.subrange(0, a@.len() as int) =~= a@);
    assert(b@.subrange(0, b@.len() as int) =~= b@);
    r
}

/// Iki metnin esitligi (`str == str`).
pub fn metinler_esit(a: &str, b: &str) -> (r: bool)
    ensures
        r == (a@ == b@),
{
    let av = karakterler(a);
    let bv = karakterler(b);
    diziler_esit(&av, &bv)
}

/// `s`, `aranan`'i icerir mi (`str::contains`).
pub fn icinde_var(s: &Vec<char>, aranan: &Vec<char>) -> (r: bool)
    ensures
        r == icerir(s@, aranan@),
{
    let n = s.len();
    let m = aranan.len();
    if m > n {
        assert forall|i: int| !burada_gecer(s@, aranan@, i) by {}
        return false;
    }
    if m == 0 {
        assert(s@.subrange(0, 0) =~= aranan@);
        assert(burada_gecer(s@, aranan@, 0));
        return true;
    }
    let mut i: usize = 0;
    while i <= n - m
        invariant
            n == s@.len(),
            m == aranan@.len(),
            0 < m <= n,
            i <= n - m + 1,
            forall|j: int| 0 <= j < i ==> !burada_gecer(s@, aranan@, j),
        decreases n - m + 1 - i,
    {
        if aralik_esit(s, i, aranan, 0, m) {
            assert(aranan@.subrange(0, m as int) =~= aranan@);
            assert(burada_gecer(s@, aranan@, i as int));
            return true;
        }
        assert(aranan@.subrange(0, m as int) =~= aranan@);
        i = i + 1;
    }
    assert forall|j: int| !burada_gecer(s@, aranan@, j) by {
        if 0 <= j && j < i {
        }
    }
    false
}

/// `s`, `on` ile baslar mi (`str::starts_with`).
pub fn ile_basliyor(s: &Vec<char>, on: &Vec<char>) -> (r: bool)
    ensures
        r == ile_baslar(s@, on@),
{
    if on.len() > s.len() {
        return false;
    }
    let r = aralik_esit(s, 0, on, 0, on.len());
    assert(on@.subrange(0, on@.len() as int) =~= on@);
    assert(s@.subrange(0, on@.len() as int) =~= s@.take(on@.len() as int));
    r
}

/// `v[bas..son]` araliginin kopyasi.
pub fn alt_dizi(v: &Vec<char>, bas: usize, son: usize) -> (r: Vec<char>)
    requires
        bas <= son <= v@.len(),
    ensures
        r@ == v@.subrange(bas as int, son as int),
{
    let mut r: Vec<char> = Vec::new();
    let mut i = bas;
    while i < son
        invariant
            bas <= i <= son <= v@.len(),
            r@ == v@.subrange(bas as int, i as int),
        decreases son - i,
    {
        r.push(v[i]);
        i = i + 1;
        assert(r@ =~= v@.subrange(bas as int, i as int));
    }
    r
}

/// `v[bas..son]` araligi `hedef`'e esit mi.
pub fn aralik_bu_mu(v: &Vec<char>, bas: usize, son: usize, hedef: &Vec<char>) -> (r: bool)
    requires
        bas <= son <= v@.len(),
    ensures
        r == (v@.subrange(bas as int, son as int) == hedef@),
{
    if son - bas != hedef.len() {
        return false;
    }
    let r = aralik_esit(v, bas, hedef, 0, son - bas);
    assert(hedef@.subrange(0, hedef@.len() as int) =~= hedef@);
    r
}

} // verus!
