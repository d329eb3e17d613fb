//! Pencere kontrol butonlari (kucult, buyut, kapat): GNOME `button-layout`
//! ayarinin ayristirilmasi ve her tarafta gosterilecek butonlarin secimi.

use vstd::prelude::*;
use vstd::string::*;
use crate::gorunum::Platform;
use crate::metin::{
    Kirpma, bol, ilk_konum, ilk_konum_ozellikleri, kirp, karakterler, alt_dizi, aralik_bu_mu,
    ilk_konumu_bul, kirpma_araligi, parcalara_bol,
};

verus! {

/// Pencere kontrol butonu turu.
#[derive(Clone, Copy, Debug, PartialEq, Eq, Structural)]
pub enum KontrolTipi {
    Kucult,
    Buyut,
    Kapat,
}

/// Ust bardaki kontrol grubunun tarafi.
#[derive(Clone, Copy, Debug, PartialEq, Eq, Structural)]
pub enum KontrolTarafi {
    Sol,
    Sag,
}

/// Pencere sisteminin kontrol alani (Windows'ta butonun isabet turu).
#[derive(Clone, Copy, Debug, PartialEq, Eq, Structural)]
pub enum PencereKontrolAlani {
    Kucult,
    Buyut,
    Kapat,
}

/// Bir tarafta en fazla bulunabilecek buton sayisi.
pub const KONTROL_BUTON_SINIRI: usize = 3;

pub open spec fn simge_metni(t: KontrolTipi, pencere_buyuk_mu: bool) -> Seq<char> {
    match t {
        KontrolTipi::Kucult => seq!['\u{2013}'],
        KontrolTipi::Buyut => if pencere_buyuk_mu {
            seq!['\u{2750}']
        } else {
            seq!['\u{25A1}']
        },
        KontrolTipi::Kapat => seq!['\u{2715}'],
    }
}

/// GNOME buton adi: "minimize", "maximize", "close".
pub open spec fn gnome_tipi(ad: Seq<char>) -> Option<KontrolTipi> {
    if ad == seq!['m', 'i', 'n', 'i', 'm', 'i', 'z', 'e'] {
        Some(KontrolTipi::Kucult)
    } else if ad == seq!['m', 'a', 'x', 'i', 'm', 'i', 'z', 'e'] {
        Some(KontrolTipi::Buyut)
    } else if ad == seq!['c', 'l', 'o', 's', 'e'] {
        Some(KontrolTipi::Kapat)
    } else {
        None
    }
}

/// Tipin sira indeksi: kucult 0, buyut 1, kapat 2.
pub open spec fn sira(t: KontrolTipi) -> int {
    match t {
        KontrolTipi::Kucult => 0,
        KontrolTipi::Buyut => 1,
        KontrolTipi::Kapat => 2,
    }
}

impl KontrolTipi {
    /// Butonda gosterilen simge; buyut butonu pencere buyukken geri-al simgesi.
    pub fn simge(&self, pencere_buyuk_mu: bool) -> (r: &'static str)
        ensures
            r@ == simge_metni(*self, pencere_buyuk_mu),
    {
        proof {
            reveal_strlit("\u{2013}");
            reveal_strlit("\u{2750}");
            reveal_strlit("\u{25A1}");
            reveal_strlit("\u{2715}");
        }
        match self {
            KontrolTipi::Kucult => "\u{2013}",
            KontrolTipi::Buyut => if pencere_buyuk_mu {
                "\u{2750}"
            } else {
                "\u{25A1}"
            },
            KontrolTipi::Kapat => "\u{2715}",
        }
    }

    /// Hover grubunun adi.
    pub fn grup_adi(&self) -> (r: &'static str)
        ensures
            r@ == (match *self {
                KontrolTipi::Kucult => "kontrol-kucult"@,
                KontrolTipi::Buyut => "kontrol-buyut"@,
                KontrolTipi::Kapat => "kontrol-kapat"@,
            }),
    {
        match self {
            KontrolTipi::Kucult => "kontrol-kucult",
            KontrolTipi::Buyut => "kontrol-buyut",
            KontrolTipi::Kapat => "kontrol-kapat",
        }
    }

    /// GNOME buton adindan tip.
    pub fn gnome_adindan_coz(ad: &str) -> (r: Option<Self>)
        ensures
            r == gnome_tipi(ad@),
    {
        let v = karakterler(ad);
        assert(v@.subrange(0, v@.len() as int) =~= v@);
        aralik_tipi(&v, 0, v.len())
    }

    /// Tipin sira indeksi.
    pub fn siralama_indeksi(&self) -> (r: usize)
        ensures
            r == sira(*self),
    {
        match self {
            KontrolTipi::Kucult => 0,
            KontrolTipi::Buyut => 1,
            KontrolTipi::Kapat => 2,
        }
    }

    /// Pencere sistemindeki kontrol alani.
    pub fn window_control(&self) -> (r: PencereKontrolAlani)
        ensures
            r == (match *self {
                KontrolTipi::Kucult => PencereKontrolAlani::Kucult,
                KontrolTipi::Buyut => PencereKontrolAlani::Buyut,
                KontrolTipi::Kapat => PencereKontrolAlani::Kapat,
            }),
    {
        match self {
            KontrolTipi::Kucult => PencereKontrolAlani::Kucult,
            KontrolTipi::Buyut => PencereKontrolAlani::Buyut,
            KontrolTipi::Kapat => PencereKontrolAlani::Kapat,
        }
    }
}

/// `v[bas..son]` bir GNOME buton adi mi.
fn aralik_tipi(v: &Vec<char>, bas: usize, son: usize) -> (r: Option<KontrolTipi>)
    requires
        bas <= son <= v@.len(),
    ensures
        r == gnome_tipi(v@.subrange(bas as int, son as int)),
{
    let kucult = vec!['m', 'i', 'n', 'i', 'm', 'i', 'z', 'e'];
    let buyut = vec!['m', 'a', 'x', 'i', 'm', 'i', 'z', 'e'];
    let kapat = vec!['c', 'l', 'o', 's', 'e'];
    assert(kucult@ =~= seq!['m', 'i', 'n', 'i', 'm', 'i', 'z', 'e']);
    assert(buyut@ =~= seq!['m', 'a', 'x', 'i', 'm', 'i', 'z', 'e']);
    assert(kapat@ =~= seq!['c', 'l', 'o', 's', 'e']);
    if aralik_bu_mu(v, bas, son, &kucult) {
        Some(KontrolTipi::Kucult)
    } else if aralik_bu_mu(v, bas, son, &buyut) {
        Some(KontrolTipi::Buyut)
    } else if aralik_bu_mu(v, bas, son, &kapat) {
        Some(KontrolTipi::Kapat)
    } else {
        None
    }
}

/// Bir tarafin metnindeki adlarin tipleri: virgulle bolunmus, bosluklari
/// kirpilmis her parca icin GNOME adi karsiligi.
pub open spec fn taraf_tipleri(metin: Seq<char>) -> Seq<Option<KontrolTipi>> {
    bol(metin, ',').map_values(|p: Seq<char>| gnome_tipi(kirp(p, Kirpma::Bosluk)))
}

/// Goruldu isaretlerinden kac tanesi dolu.
pub open spec fn dolu(g: Seq<bool>) -> int {
    (if g[0] { 1int } else { 0int }) + (if g[1] { 1int } else { 0int }) + (if g[2] { 1int } else { 0int })
}

/// Tipleri sirayla yerlestirir: taninmayan adlar ve daha once (bu ya da onceki
/// tarafta) gorulmus tipler atlanir. Yerlesen tipleri ve guncel goruldu
/// isaretlerini verir.
pub open spec fn yerlestir(tipler: Seq<Option<KontrolTipi>>, goruldu: Seq<bool>) -> (Seq<KontrolTipi>, Seq<bool>)
    decreases tipler.len(),
{
    if tipler.len() == 0 {
        (Seq::empty(), goruldu)
    } else {
        let (once, g) = yerlestir(tipler.drop_last(), goruldu);
        match tipler.last() {
            Some(t) => if !g[sira(t)] {
                (once.push(t), g.update(sira(t), true))
            } else {
                (once, g)
            },
            None => (once, g),
        }
    }
}

/// Yerlesen tipleri yuvalara dizer: once tipler, kalan yuvalar bos.
pub open spec fn yuvalar(s: Seq<KontrolTipi>) -> Seq<Option<KontrolTipi>> {
    Seq::new(3, |i: int| if i < s.len() { Some(s[i]) } else { None })
}

/// `metin`'i ilk `:`'dan sol ve sag taraf metinlerine ayirir; `:` yoksa tamami
/// sag taraftir.
pub open spec fn iki_nokta_bol(metin: Seq<char>) -> (Seq<char>, Seq<char>) {
    match ilk_konum(metin, ':') {
        Some(i) => (metin.take(i), metin.skip(i + 1)),
        None => (Seq::empty(), metin),
    }
}

pub open spec fn baslangic_goruldu() -> Seq<bool> {
    seq![false, false, false]
}

/// Sol taraftaki yerlesen tipler.
pub open spec fn sol_tipler(metin: Seq<char>) -> Seq<KontrolTipi> {
    yerlestir(taraf_tipleri(iki_nokta_bol(metin).0), baslangic_goruldu()).0
}

/// Sag taraftaki yerlesen tipler (soldakiler tekrar edilmez).
pub open spec fn sag_tipler(metin: Seq<char>) -> Seq<KontrolTipi> {
    let g1 = yerlestir(taraf_tipleri(iki_nokta_bol(metin).0), baslangic_goruldu()).1;
    yerlestir(taraf_tipleri(iki_nokta_bol(metin).1), g1).0
}

/// GNOME `button-layout` metninin duzeni: sol ve sag yuvalar; hicbir buton
/// taninmazsa yok.
pub open spec fn metinden_duzen(metin: Seq<char>) -> Option<(Seq<Option<KontrolTipi>>, Seq<Option<KontrolTipi>>)> {
    if sol_tipler(metin).len() == 0 && sag_tipler(metin).len() == 0 {
        None
    } else {
        Some((yuvalar(sol_tipler(metin)), yuvalar(sag_tipler(metin))))
    }
}

/// Dizide hicbir oge iki kez gecmez.
pub open spec fn tekrarsiz(s: Seq<KontrolTipi>) -> bool {
    forall|i: int, j: int| 0 <= i < j < s.len() ==> s[i] != s[j]
}

/// Yerlestirmenin ozellikleri: yerlesen tipler tekrarsizdir, daha once
/// gorulmemistir ve simdi goruldu sayilir; yerlesen sayi yeni isaretlenen
/// sayiya esittir.
pub proof fn yerlestir_ozellikleri(tipler: Seq<Option<KontrolTipi>>, goruldu: Seq<bool>)
    requires
        goruldu.len() == 3,
    ensures
        ({
            let (o, g) = yerlestir(tipler, goruldu);
            &&& g.len() == 3
            &&& o.len() + dolu(goruldu) == dolu(g)
            &&& forall|k: int| 0 <= k < 3 && goruldu[k] ==> g[k]
            &&& forall|i: int| 0 <= i < o.len() ==> !goruldu[sira(#[trigger] o[i])] && g[sira(o[i])]
            &&& tekrarsiz(o)
        }),
    decreases tipler.len(),
{
    if tipler.len() > 0 {
        yerlestir_ozellikleri(tipler.drop_last(), goruldu);
        let (once, g) = yerlestir(tipler.drop_last(), goruldu);
        match tipler.last() {
            Some(t) => {
                if !g[sira(t)] {
                    let o2 = once.push(t);
                    let g2 = g.update(sira(t), true);
                    assert forall|i: int| 0 <= i < o2.len() implies !goruldu[sira(#[trigger] o2[i])] && g2[sira(o2[i])] by {
                        if i < once.len() {
                            assert(o2[i] == once[i]);
                        }
                    }
                    assert forall|i: int, j: int| 0 <= i < j < o2.len() implies o2[i] != o2[j] by {
                        if j == once.len() {
                            assert(g[sira(once[i])]);
                        } else {
                            assert(o2[i] == once[i] && o2[j] == once[j]);
                        }
                    }
                }
            },
            None => {},
        }
    }
}

/// Taninmayan bir ad (bos yuva) bir tarafin listesinin neresine eklenirse
/// eklensin yerlestirme sonucu degismez: taninmayan adlar atlanir, sonraki
/// adlarin yerlesmesini engellemez.
pub proof fn taninmayan_ad_etkisiz(a: Seq<Option<KontrolTipi>>, b: Seq<Option<KontrolTipi>>, goruldu: Seq<bool>)
    ensures
        yerlestir(a + seq![None::<KontrolTipi>] + b, goruldu) == yerlestir(a + b, goruldu),
    decreases b.len(),
{
    let x = a + seq![None::<KontrolTipi>] + b;
    if b.len() == 0 {
        assert(x.drop_last() =~= a);
        assert(a + b =~= a);
    } else {
        let b2 = b.drop_last();
        taninmayan_ad_etkisiz(a, b2, goruldu);
        assert(x.drop_last() =~= a + seq![None::<KontrolTipi>] + b2);
        assert((a + b).drop_last() =~= a + b2);
        assert(x.last() == b.last());
        assert((a + b).last() == b.last());
    }
}

/// Yerlestirmenin tamligi: listede gecen ve daha once (bu ya da onceki
/// tarafta) gorulmemis her taninan tip yerlestirilir; yeni isaretlenen her
/// tip yerlesenler arasindadir.
pub proof fn gorulmeyen_tip_yerlesir(tipler: Seq<Option<KontrolTipi>>, goruldu: Seq<bool>)
    requires
        goruldu.len() == 3,
    ensures
        ({
            let (o, g) = yerlestir(tipler, goruldu);
            &&& forall|k: int| 0 <= k < 3 && #[trigger] g[k] && !goruldu[k]
                ==> exists|j: int| 0 <= j < o.len() && sira(#[trigger] o[j]) == k
            &&& forall|i: int| 0 <= i < tipler.len() && (#[trigger] tipler[i]) is Some
                && !goruldu[sira(tipler[i]->0)] ==> o.contains(tipler[i]->0)
        }),
    decreases tipler.len(),
{
    yerlestir_ozellikleri(tipler, goruldu);
    if tipler.len() > 0 {
        let p = tipler.drop_last();
        gorulmeyen_tip_yerlesir(p, goruldu);
        yerlestir_ozellikleri(p, goruldu);
        let (o1, g1) = yerlestir(p, goruldu);
        let (o, g) = yerlestir(tipler, goruldu);
        match tipler.last() {
            Some(t) => {
                if !g1[sira(t)] {
                    assert forall|k: int| 0 <= k < 3 && #[trigger] g[k] && !goruldu[k]
                        implies exists|j: int| 0 <= j < o.len() && sira(#[trigger] o[j]) == k by {
                        if k == sira(t) {
                            assert(o[o.len() - 1] == t);
                        } else {
                            assert(g1[k]);
                            let j = choose|j: int| 0 <= j < o1.len() && sira(#[trigger] o1[j]) == k;
                            assert(o[j] == o1[j]);
                        }
                    }
                    assert forall|i: int| 0 <= i < tipler.len() && (#[trigger] tipler[i]) is Some
                        && !goruldu[sira(tipler[i]->0)] implies o.contains(tipler[i]->0) by {
                        if i < p.len() {
                            assert(p[i] == tipler[i]);
                            let j = choose|j: int| 0 <= j < o1.len() && o1[j] == p[i]->0;
                            assert(o[j] == o1[j]);
                        } else {
                            assert(o[o.len() - 1] == t);
                        }
                    }
                } else {
                    assert forall|i: int| 0 <= i < tipler.len() && (#[trigger] tipler[i]) is Some
                        && !goruldu[sira(tipler[i]->0)] implies o.contains(tipler[i]->0) by {
                        if i < p.len() {
                            assert(p[i] == tipler[i]);
                        } else {
                            assert(g1[sira(t)] && !goruldu[sira(t)]);
                            let j = choose|j: int| 0 <= j < o1.len() && sira(#[trigger] o1[j]) == sira(t);
                            assert(o1[j] == t);
                        }
                    }
                }
            },
            None => {
                assert forall|i: int| 0 <= i < tipler.len() && (#[trigger] tipler[i]) is Some
                    && !goruldu[sira(tipler[i]->0)] implies o.contains(tipler[i]->0) by {
                    assert(p[i] == tipler[i]);
                }
            },
        }
    }
}

/// Ayristirilan duzende hicbir buton iki kez (ayni ya da farkli tarafta)
/// yer almaz ve her tarafta en fazla uc buton vardir.
pub proof fn duzende_buton_tekrarlanmaz(metin: Seq<char>)
    ensures
        tekrarsiz(sol_tipler(metin) + sag_tipler(metin)),
        sol_tipler(metin).len() <= 3,
        sag_tipler(metin).len() <= 3,
{
    let (sol_m, sag_m) = iki_nokta_bol(metin);
    let g0 = baslangic_goruldu();
    yerlestir_ozellikleri(taraf_tipleri(sol_m), g0);
    let (o1, g1) = yerlestir(taraf_tipleri(sol_m), g0);
    yerlestir_ozellikleri(taraf_tipleri(sag_m), g1);
    let (o2, g2) = yerlestir(taraf_tipleri(sag_m), g1);
    let h = o1 + o2;
    assert forall|i: int, j: int| 0 <= i < j < h.len() implies h[i] != h[j] by {
        if j < o1.len() {
        } else if i >= o1.len() {
            assert(h[i] == o2[i - o1.len()] && h[j] == o2[j - o1.len()]);
        } else {
            assert(h[i] == o1[i]);
            assert(h[j] == o2[j - o1.len()]);
            assert(g1[sira(o1[i])]);
            assert(!g1[sira(o2[j - o1.len()])]);
        }
    }
}

/// Bir pencere kontrol duzeni: sol ve sag taraftaki buton yuvalari.
#[derive(Clone, Copy, Debug)]
pub struct KontrolDuzeni {
    pub sol: [Option<KontrolTipi>; KONTROL_BUTON_SINIRI],
    pub sag: [Option<KontrolTipi>; KONTROL_BUTON_SINIRI],
}

/// Bir tarafin metnini ayristirir; `goruldu` her iki taraf boyunca paylasilir.
fn tarafi_coz(metin: &Vec<char>, goruldu: &mut Vec<bool>) -> (r: Vec<KontrolTipi>)
    requires
        old(goruldu)@.len() == 3,
    ensures
        (r@, final(goruldu)@) == yerlestir(taraf_tipleri(metin@), old(goruldu)@),
{
    let ghost g0 = goruldu@;
    let ghost tipler = taraf_tipleri(metin@);
    let parcalar = parcalara_bol(metin, ',');
    let n = parcalar.len();
    let mut r: Vec<KontrolTipi> = Vec::new();
    let mut j: usize = 0;
    assert(tipler.take(0) =~= Seq::<Option<KontrolTipi>>::empty());
    while j < n
        invariant
            n == parcalar@.len(),
            n == tipler.len(),
            tipler == taraf_tipleri(metin@),
            g0.len() == 3,
            j <= n,
            forall|k: int|
                0 <= k < parcalar@.len() ==> #[trigger] parcalar@[k].0 <= parcalar@[k].1
                    <= metin@.len() && metin@.subrange(parcalar@[k].0 as int, parcalar@[k].1 as int)
                    == bol(metin@, ',')[k],
            (r@, goruldu@) == yerlestir(tipler.take(j as int), g0),
            goruldu@.len() == 3,
        decreases n - j,
    {
        let (b, e) = parcalar[j];
        let (b2, e2) = kirpma_araligi(metin, b, e, Kirpma::Bosluk);
        let tip = aralik_tipi(metin, b2, e2);
        assert(tip == tipler[j as int]);
        assert(tipler.take(j + 1).drop_last() =~= tipler.take(j as int));
        assert(tipler.take(j + 1).last() == tipler[j as int]);
        match tip {
            Some(t) => {
                let k = t.siralama_indeksi();
                if !goruldu[k] {
                    r.push(t);
                    goruldu.set(k, true);
                }
            },
            None => {},
        }
        j = j + 1;
    }
    assert(tipler.take(n as int) =~= tipler);
    r
}

/// Yerlesen tiplerden yuva dizisi.
fn yuvalara_diz(s: &Vec<KontrolTipi>) -> (r: [Option<KontrolTipi>; KONTROL_BUTON_SINIRI])
    requires
        s@.len() <= 3,
    ensures
        r@ == yuvalar(s@),
{
    let a = if s.len() > 0 { Some(s[0]) } else { None };
    let b = if s.len() > 1 { Some(s[1]) } else { None };
    let c = if s.len() > 2 { Some(s[2]) } else { None };
    let r = [a, b, c];
    assert(r@ =~= yuvalar(s@));
    r
}

impl KontrolDuzeni {
    pub open spec fn standart_sol() -> Seq<Option<KontrolTipi>> {
        seq![None::<KontrolTipi>, None, None]
    }

    pub open spec fn standart_sag() -> Seq<Option<KontrolTipi>> {
        seq![Some(KontrolTipi::Kucult), Some(KontrolTipi::Buyut), Some(KontrolTipi::Kapat)]
    }

    /// Standart duzen: solda buton yok, sagda kucult, buyut, kapat.
    pub fn standart() -> (r: Self)
        ensures
            r.sol@ == Self::standart_sol(),
            r.sag@ == Self::standart_sag(),
    {
        let r = KontrolDuzeni {
            sol: [None, None, None],
            sag: [Some(KontrolTipi::Kucult), Some(KontrolTipi::Buyut), Some(KontrolTipi::Kapat)],
        };
        assert(r.sol@ =~= seq![None::<KontrolTipi>, None, None]);
        assert(r.sag@ =~= seq![Some(KontrolTipi::Kucult), Some(KontrolTipi::Buyut), Some(KontrolTipi::Kapat)]);
        r
    }

    /// GNOME `button-layout` metnini ("sol:sag", ornegin
    /// "appmenu:minimize,maximize,close") ayristirir. Hicbir buton taninmazsa
    /// yok.
    pub fn metinden_coz(metin: &str) -> (r: Option<Self>)
        ensures
            match r {
                Some(d) => metinden_duzen(metin@) == Some((d.sol@, d.sag@)),
                None => metinden_duzen(metin@) is None,
            },
    {
        let v = karakterler(metin);
        dizi_duzeni(&v)
    }
}

/// `metinden_coz`'un karakter dizisi uzerinde calisan govdesi.
fn dizi_duzeni(v: &Vec<char>) -> (r: Option<KontrolDuzeni>)
    ensures
        match r {
            Some(d) => metinden_duzen(v@) == Some((d.sol@, d.sag@)),
            None => metinden_duzen(v@) is None,
        },
{
    let ghost m = v@;
    let n = v.len();
    let konum = ilk_konumu_bul(v, ':');
    proof {
        ilk_konum_ozellikleri(m, ':');
    }
    let (sol_metin, sag_metin) = match konum {
        Some(i) => (alt_dizi(v, 0, i), alt_dizi(v, i + 1, n)),
        None => (Vec::new(), alt_dizi(v, 0, n)),
    };
    assert(sol_metin@ =~= iki_nokta_bol(m).0);
    assert(sag_metin@ =~= iki_nokta_bol(m).1);
    let mut goruldu = vec![false, false, false];
    assert(goruldu@ =~= baslangic_goruldu());
    let sol = tarafi_coz(&sol_metin, &mut goruldu);
    proof {
        yerlestir_ozellikleri(taraf_tipleri(sol_metin@), baslangic_goruldu());
    }
    let sag = tarafi_coz(&sag_metin, &mut goruldu);
    proof {
        duzende_buton_tekrarlanmaz(m);
    }
    if sol.len() == 0 && sag.len() == 0 {
        return None;
    }
    Some(KontrolDuzeni { sol: yuvalara_diz(&sol), sag: yuvalara_diz(&sag) })
}

/// `String::from_utf8_lossy`'nin sonucu: gecersiz UTF-8 dizileri yerine
/// U+FFFD konarak cozulen metin.
pub uninterp spec fn kayipli_utf8(b: Seq<u8>) -> Seq<char>;

/// `String::from_utf8_lossy`'yi cagirir. Sonucun `kayipli_utf8(b@)` oldugunu
/// ve gecerli UTF-8 girdide tam cozum oldugunu soyler; gecersiz dizilerin
/// nasil degistirildigini anlatmaz.
#[verifier::external_body]
fn utf8_kayipli_coz(b: &[u8]) -> (r: String)
    ensures
        r@ == kayipli_utf8(b@),
        vstd::utf8::valid_utf8(b@) ==> r@ == vstd::utf8::decode_utf8(b@),
{
    String::from_utf8_lossy(b).into_owned()
}

/// `gsettings` ciktisindan duzen metni: bosluklar, sonra tek ve cift tirnaklar
/// iki uctan kirpilir.
pub open spec fn gsettings_metni(ham: Seq<char>) -> Seq<char> {
    kirp(kirp(kirp(ham, Kirpma::Bosluk), Kirpma::Karakter('\'')), Kirpma::Karakter('"'))
}

/// `gsettings get org.gnome.desktop.wm.preferences button-layout` komutunun
/// sonucundan duzen: komut basarisizsa yok; aksi halde cikti (kayipli UTF-8)
/// kirpilip ayristirilir.
pub fn gsettings_ciktisini_coz(basarili: bool, cikti: &[u8]) -> (r: Option<KontrolDuzeni>)
    ensures
        !basarili ==> r is None,
        basarili ==> match r {
            Some(d) => metinden_duzen(gsettings_metni(kayipli_utf8(cikti@))) == Some((d.sol@, d.sag@)),
            None => metinden_duzen(gsettings_metni(kayipli_utf8(cikti@))) is None,
        },
        basarili && vstd::utf8::valid_utf8(cikti@) ==> match r {
            Some(d) => metinden_duzen(gsettings_metni(vstd::utf8::decode_utf8(cikti@))) == Some((d.sol@, d.sag@)),
            None => metinden_duzen(gsettings_metni(vstd::utf8::decode_utf8(cikti@))) is None,
        },
{
    if !basarili {
        return None;
    }
    let ham = utf8_kayipli_coz(cikti);
    gsettings_metninden_duzen(ham.as_str())
}

/// Cozulmus `gsettings` ciktisindan duzen: bosluklar ve tirnaklar kirpilip
/// metin ayristirilir.
pub fn gsettings_metninden_duzen(ham: &str) -> (r: Option<KontrolDuzeni>)
    ensures
        match r {
            Some(d) => metinden_duzen(gsettings_metni(ham@)) == Some((d.sol@, d.sag@)),
            None => metinden_duzen(gsettings_metni(ham@)) is None,
        },
{
    let v = karakterler(ham);
    let n = v.len();
    assert(v@.subrange(0, n as int) =~= v@);
    let (b1, e1) = kirpma_araligi(&v, 0, n, Kirpma::Bosluk);
    let (b2, e2) = kirpma_araligi(&v, b1, e1, Kirpma::Karakter('\''));
    let (b3, e3) = kirpma_araligi(&v, b2, e2, Kirpma::Karakter('"'));
    let metin = alt_dizi(&v, b3, e3);
    dizi_duzeni(&metin)
}

/// GNOME duzeninin yeniden okunma araligi: 2 saniye.
pub open spec fn yenileme_araligi_ns() -> int {
    2_000_000_000
}

/// Son okumadan bu yana gecen sure (nanosaniye) yeniden okumayi gerektiriyor mu.
pub fn yenilenmeli(gecen_nanosaniye: u128) -> (r: bool)
    ensures
        r == (gecen_nanosaniye >= yenileme_araligi_ns()),
{
    gecen_nanosaniye >= 2_000_000_000
}

/// Saat `simdi`'yi gosterirken son yenilemeden bu yana gecen sure; saat
/// monotondur, geri gitmis gorunurse gecen sure sifir sayilir.
pub open spec fn gecen_sure(son_yenileme: u128, simdi: u128) -> int {
    if simdi >= son_yenileme {
        simdi - son_yenileme
    } else {
        0
    }
}

/// Surec boyunca tutulan kontrol duzeni ve son yenileme (okuma denemesi)
/// ani, monoton bir saatte nanosaniye olarak.
pub struct KontrolDuzeniOnbellegi {
    pub duzen: KontrolDuzeni,
    pub son_yenileme: u128,
}

/// Onbellek `simdi` aninda duzeni yeniden okumali mi: son yenilemeden bu
/// yana en az iki saniye gecti.
pub open spec fn yeniden_okunmali(o: KontrolDuzeniOnbellegi, simdi: u128) -> bool {
    gecen_sure(o.son_yenileme, simdi) >= yenileme_araligi_ns()
}

/// Bir duzen isteginden sonraki onbellek. Yeniden okuma zamani geldiyse
/// `okunan` (okuma sonucu) basariliysa yeni duzen olur, degilse eski duzen
/// kalir; her iki durumda da zamanlayici `simdi`'ye kurulur. Zamani
/// gelmediyse onbellek degismez ve okuma yapilmaz.
pub open spec fn istek_sonrasi(o: KontrolDuzeniOnbellegi, simdi: u128, okunan: Option<KontrolDuzeni>) -> KontrolDuzeniOnbellegi {
    if yeniden_okunmali(o, simdi) {
        KontrolDuzeniOnbellegi {
            duzen: match okunan {
                Some(d) => d,
                None => o.duzen,
            },
            son_yenileme: simdi,
        }
    } else {
        o
    }
}

impl KontrolDuzeniOnbellegi {
    /// Surecteki ilk istek: `simdi` aninda yapilan okuma; okunamazsa
    /// standart duzen.
    pub fn ilk(simdi: u128, okunan: Option<KontrolDuzeni>) -> (r: Self)
        ensures
            r.son_yenileme == simdi,
            match okunan {
                Some(d) => r.duzen == d,
                None => r.duzen.sol@ == KontrolDuzeni::standart_sol() && r.duzen.sag@ == KontrolDuzeni::standart_sag(),
            },
    {
        match okunan {
            Some(d) => KontrolDuzeniOnbellegi { duzen: d, son_yenileme: simdi },
            None => KontrolDuzeniOnbellegi { duzen: KontrolDuzeni::standart(), son_yenileme: simdi },
        }
    }

    /// `simdi` aninda gelen istekte duzen yeniden okunmali mi.
    pub fn yeniden_okunmali_mi(&self, simdi: u128) -> (r: bool)
        ensures
            r == yeniden_okunmali(*self, simdi),
    {
        let gecen = if simdi >= self.son_yenileme {
            simdi - self.son_yenileme
        } else {
            0
        };
        yenilenmeli(gecen)
    }

    /// `simdi` aninda gelen bir duzen istegi. `okunan`, `yeniden_okunmali_mi`
    /// dogru dediginde yapilan okumanin sonucudur; aksi halde dikkate alinmaz.
    /// Istekten sonraki duzeni dondurur.
    pub fn istek(&mut self, simdi: u128, okunan: Option<KontrolDuzeni>) -> (r: KontrolDuzeni)
        ensures
            *final(self) == istek_sonrasi(*old(self), simdi, okunan),
            r == final(self).duzen,
    {
        if self.yeniden_okunmali_mi(simdi) {
            self.son_yenileme = simdi;
            if let Some(d) = okunan {
                self.duzen = d;
            }
        }
        self.duzen
    }
}

/// Onbellegin istek yasasi: zamani gelmeyen istek onbellegi degistirmez ve
/// okuma sonucundan etkilenmez; zamani gelen istekte zamanlayici sifirlanir,
/// basarili okuma duzeni degistirir, basarisiz okuma eski duzeni korur;
/// yenilemeden sonraki iki saniye icindeki istekler yeniden okumaz.
pub proof fn onbellek_istek_yasasi(
    o: KontrolDuzeniOnbellegi,
    simdi: u128,
    okunan: Option<KontrolDuzeni>,
    diger: Option<KontrolDuzeni>,
    sonraki: u128,
)
    ensures
        !yeniden_okunmali(o, simdi) ==> istek_sonrasi(o, simdi, okunan) == o
            && istek_sonrasi(o, simdi, okunan) == istek_sonrasi(o, simdi, diger),
        yeniden_okunmali(o, simdi) ==> istek_sonrasi(o, simdi, okunan).son_yenileme == simdi,
        yeniden_okunmali(o, simdi) && okunan is None ==> istek_sonrasi(o, simdi, okunan).duzen == o.duzen,
        yeniden_okunmali(o, simdi) && okunan is Some ==> istek_sonrasi(o, simdi, okunan).duzen == okunan->0,
        yeniden_okunmali(o, simdi) && simdi <= sonraki < simdi + yenileme_araligi_ns()
            ==> !yeniden_okunmali(istek_sonrasi(o, simdi, okunan), sonraki),
{
}

/// Pencerenin destekledigi kontroller.
#[derive(Clone, Copy, Debug, PartialEq, Eq, Structural)]
pub struct DesteklenenKontroller {
    pub kucult: bool,
    pub buyut: bool,
    pub pencere_menusu: bool,
}

pub open spec fn destekli(t: KontrolTipi, d: DesteklenenKontroller) -> bool {
    match t {
        KontrolTipi::Kucult => d.kucult,
        KontrolTipi::Buyut => d.buyut,
        KontrolTipi::Kapat => true,
    }
}

/// Tip pencerece destekleniyor mu; kapat her zaman desteklenir.
pub fn kontrol_destekleniyor_mu(tip: KontrolTipi, kontroller: DesteklenenKontroller) -> (r: bool)
    ensures
        r == destekli(tip, kontroller),
{
    match tip {
        KontrolTipi::Kucult => kontroller.kucult,
        KontrolTipi::Buyut => kontroller.buyut,
        KontrolTipi::Kapat => true,
    }
}

/// Yuvalardaki tiplerden destekli olanlar, sirasiyla.
pub open spec fn destekli_yuvalar(y: Seq<Option<KontrolTipi>>, d: DesteklenenKontroller) -> Seq<KontrolTipi>
    decreases y.len(),
{
    if y.len() == 0 {
        Seq::empty()
    } else {
        let once = destekli_yuvalar(y.drop_last(), d);
        match y.last() {
            Some(t) => if destekli(t, d) {
                once.push(t)
            } else {
                once
            },
            None => once,
        }
    }
}

/// Bir taraftaki butonlar: macOS'ta yok (sistem trafik isiklari kullanilir);
/// Windows'ta solda yok, sagda destekli kucult/buyut/kapat; Linux'ta yalnizca
/// istemci tarafli dekorasyonda, duzenin o tarafindaki destekli butonlar.
pub open spec fn taraf_butonlari(
    platform: Platform,
    taraf: KontrolTarafi,
    istemci_dekorasyonu: bool,
    sol: Seq<Option<KontrolTipi>>,
    sag: Seq<Option<KontrolTipi>>,
    d: DesteklenenKontroller,
) -> Seq<KontrolTipi> {
    match platform {
        Platform::MacOs => Seq::empty(),
        Platform::Windows => match taraf {
            KontrolTarafi::Sol => Seq::empty(),
            KontrolTarafi::Sag => destekli_yuvalar(
                seq![Some(KontrolTipi::Kucult), Some(KontrolTipi::Buyut), Some(KontrolTipi::Kapat)],
                d,
            ),
        },
        Platform::Linux => if !istemci_dekorasyonu {
            Seq::empty()
        } else {
            match taraf {
                KontrolTarafi::Sol => destekli_yuvalar(sol, d),
                KontrolTarafi::Sag => destekli_yuvalar(sag, d),
            }
        },
    }
}

/// Destekli yuvalarin ozellikleri: her secilen buton destekli ve yuvalarda
/// bulunur; yuvalardaki her destekli buton secilir.
proof fn destekli_yuvalar_ozellikleri(y: Seq<Option<KontrolTipi>>, d: DesteklenenKontroller)
    ensures
        forall|i: int| 0 <= i < destekli_yuvalar(y, d).len() ==> destekli(#[trigger] destekli_yuvalar(y, d)[i], d)
            && y.contains(Some(destekli_yuvalar(y, d)[i])),
        forall|j: int| 0 <= j < y.len() && (#[trigger] y[j]) is Some && destekli(y[j]->0, d)
            ==> destekli_yuvalar(y, d).contains(y[j]->0),
    decreases y.len(),
{
    if y.len() > 0 {
        let p = y.drop_last();
        destekli_yuvalar_ozellikleri(p, d);
        let o = destekli_yuvalar(p, d);
        let r = destekli_yuvalar(y, d);
        assert forall|i: int| 0 <= i < r.len() implies destekli(#[trigger] r[i], d) && y.contains(Some(r[i])) by {
            if i < o.len() {
                assert(r[i] == o[i]);
                let j = choose|j: int| 0 <= j < p.len() && p[j] == Some(o[i]);
                assert(y[j] == p[j]);
            } else {
                assert(y[y.len() - 1] == Some(r[i]));
            }
        }
        assert forall|j: int| 0 <= j < y.len() && (#[trigger] y[j]) is Some && destekli(y[j]->0, d)
            implies r.contains(y[j]->0) by {
            if j < p.len() {
                assert(p[j] == y[j]);
                let k = choose|k: int| 0 <= k < o.len() && o[k] == y[j]->0;
                assert(r[k] == o[k]);
            } else {
                assert(r[r.len() - 1] == y[j]->0);
            }
        }
    }
}

/// Buton secimi yasasi: macOS'ta hic buton yoktur; Linux'ta istemci tarafli
/// dekorasyon yoksa iki tarafta da buton yoktur, varsa secilenler tam olarak
/// o tarafin yuvalarindaki destekli butonlardir; Windows'ta solda buton
/// yoktur, sagda destekli kucult ve buyut ile her zaman kapat bu sirayla yer alir.
pub proof fn buton_secimi_yasasi(
    taraf: KontrolTarafi,
    istemci: bool,
    sol: Seq<Option<KontrolTipi>>,
    sag: Seq<Option<KontrolTipi>>,
    d: DesteklenenKontroller,
)
    ensures
        taraf_butonlari(Platform::MacOs, taraf, istemci, sol, sag, d).len() == 0,
        taraf_butonlari(Platform::Linux, taraf, false, sol, sag, d).len() == 0,
        taraf_butonlari(Platform::Windows, KontrolTarafi::Sol, istemci, sol, sag, d).len() == 0,
        taraf_butonlari(Platform::Windows, KontrolTarafi::Sag, istemci, sol, sag, d)
            == (if d.kucult { seq![KontrolTipi::Kucult] } else { Seq::empty() })
            + (if d.buyut { seq![KontrolTipi::Buyut] } else { Seq::empty() })
            + seq![KontrolTipi::Kapat],
        ({
            let y = match taraf {
                KontrolTarafi::Sol => sol,
                KontrolTarafi::Sag => sag,
            };
            let r = taraf_butonlari(Platform::Linux, taraf, true, sol, sag, d);
            &&& forall|i: int| 0 <= i < r.len() ==> destekli(#[trigger] r[i], d) && y.contains(Some(r[i]))
            &&& forall|j: int| 0 <= j < y.len() && (#[trigger] y[j]) is Some && destekli(y[j]->0, d)
                ==> r.contains(y[j]->0)
        }),
{
    destekli_yuvalar_ozellikleri(sol, d);
    destekli_yuvalar_ozellikleri(sag, d);
    let w = seq![Some(KontrolTipi::Kucult), Some(KontrolTipi::Buyut), Some(KontrolTipi::Kapat)];
    assert(w.drop_last().drop_last().drop_last() =~= Seq::<Option<KontrolTipi>>::empty());
    assert(w.drop_last().drop_last() =~= seq![Some(KontrolTipi::Kucult)]);
    assert(w.drop_last() =~= seq![Some(KontrolTipi::Kucult), Some(KontrolTipi::Buyut)]);
    reveal_with_fuel(destekli_yuvalar, 4);
    assert(taraf_butonlari(Platform::Windows, KontrolTarafi::Sag, istemci, sol, sag, d)
        =~= (if d.kucult { seq![KontrolTipi::Kucult] } else { Seq::empty() })
        + (if d.buyut { seq![KontrolTipi::Buyut] } else { Seq::empty() })
        + seq![KontrolTipi::Kapat]);
}

fn destekli_olanlar(y: &[Option<KontrolTipi>; KONTROL_BUTON_SINIRI], d: DesteklenenKontroller) -> (r: Vec<KontrolTipi>)
    ensures
        r@ == destekli_yuvalar(y@, d),
{
    let mut r: Vec<KontrolTipi> = Vec::new();
    let mut i: usize = 0;
    assert(y@.take(0) =~= Seq::<Option<KontrolTipi>>::empty());
    while i < KONTROL_BUTON_SINIRI
        invariant
            i <= 3,
            y@.len() == 3,
            r@ == destekli_yuvalar(y@.take(i as int), d),
        decreases 3 - i,
    {
        assert(y@.take(i + 1).drop_last() =~= y@.take(i as int));
        assert(y@.take(i + 1).last() == y@[i as int]);
        if let Some(t) = y[i] {
            if kontrol_destekleniyor_mu(t, d) {
                r.push(t);
            }
        }
        i = i + 1;
    }
    assert(y@.take(3) =~= y@);
    r
}

/// Ust barin bir tarafinda gosterilecek kontrol butonlari, sirasiyla.
pub fn pencere_kontrolleri_taraf(
    platform: Platform,
    taraf: KontrolTarafi,
    istemci_dekorasyonu: bool,
    duzen: &KontrolDuzeni,
    kontroller: DesteklenenKontroller,
) -> (r: Vec<KontrolTipi>)
    ensures
        r@ == taraf_butonlari(platform, taraf, istemci_dekorasyonu, duzen.sol@, duzen.sag@, kontroller),
{
    match platform {
        Platform::MacOs => Vec::new(),
        Platform::Windows => match taraf {
            KontrolTarafi::Sol => Vec::new(),
            KontrolTarafi::Sag => {
                let hepsi = KontrolDuzeni::standart();
                destekli_olanlar(&hepsi.sag, kontroller)
            },
        },
        Platform::Linux => {
            if !istemci_dekorasyonu {
                Vec::new()
            } else {
                match taraf {
                    KontrolTarafi::Sol => destekli_olanlar(&duzen.sol, kontroller),
                    KontrolTarafi::Sag => destekli_olanlar(&duzen.sag, kontroller),
                }
            }
        },
    }
}

} // verus!
