//! Yuklenmis tema varyantlarinin kaydi: her ad en fazla bir kez bulunur,
//! ayni adla kaydedilen tema eskisinin yerine gecer, yeni ad sona eklenir.

use vstd::prelude::*;
use vstd::pervasive::VecAdditionalExecFns;
use crate::gorunum::{Gorunum, TemaSecimi, hedef_adi};
use crate::metin::{karakterler, diziler_esit};

verus! {

/// Calisma zamani temasi: adi, aydinlik/koyu yonu ve cizim icin gereken
/// gorsel degerleri (`G`; renkler, olculer).
pub struct Tema<G> {
    pub ad: String,
    pub gorunum: Gorunum,
    pub gorsel: G,
}

/// `ad` adli ilk temanin sirasi.
pub open spec fn ad_sirasi<G>(s: Seq<Tema<G>>, ad: Seq<char>) -> Option<int>
    decreases s.len(),
{
    if s.len() == 0 {
        None
    } else {
        match ad_sirasi(s.drop_last(), ad) {
            Some(i) => Some(i),
            None => if s.last().ad@ == ad {
                Some(s.len() - 1)
            } else {
                None
            },
        }
    }
}

/// Hicbir ad iki kez gecmez.
pub open spec fn adlar_benzersiz<G>(s: Seq<Tema<G>>) -> bool {
    forall|i: int, j: int| 0 <= i < j < s.len() ==> s[i].ad@ != s[j].ad@
}

/// `t` kaydedildikten sonraki dizi: ayni adli tema varsa onun yerine gecer,
/// yoksa sona eklenir.
pub open spec fn kayit_sonrasi<G>(s: Seq<Tema<G>>, t: Tema<G>) -> Seq<Tema<G>> {
    match ad_sirasi(s, t.ad@) {
        Some(i) => s.update(i, t),
        None => s.push(t),
    }
}

/// `ts` sirayla kaydedildikten sonraki dizi.
pub open spec fn hepsi_kaydedilince<G>(s: Seq<Tema<G>>, ts: Seq<Tema<G>>) -> Seq<Tema<G>>
    decreases ts.len(),
{
    if ts.len() == 0 {
        s
    } else {
        kayit_sonrasi(hepsi_kaydedilince(s, ts.drop_last()), ts.last())
    }
}

/// Verilen gorunume sahip temalar, kayittaki sirasiyla.
pub open spec fn gorunume_sahip<G>(s: Seq<Tema<G>>, g: Gorunum) -> Seq<Tema<G>>
    decreases s.len(),
{
    if s.len() == 0 {
        Seq::empty()
    } else if s.last().gorunum == g {
        gorunume_sahip(s.drop_last(), g).push(s.last())
    } else {
        gorunume_sahip(s.drop_last(), g)
    }
}

/// Ilk konumun ozellikleri: orada ad eslesir, oncesinde eslesmez; konum
/// yoksa hicbir tema o adi tasimaz.
pub proof fn ad_sirasi_ozellikleri<G>(s: Seq<Tema<G>>, ad: Seq<char>)
    ensures
        match ad_sirasi(s, ad) {
            Some(i) => 0 <= i < s.len() && s[i].ad@ == ad && forall|j: int| 0 <= j < i ==> s[j].ad@ != ad,
            None => forall|j: int| 0 <= j < s.len() ==> s[j].ad@ != ad,
        },
    decreases s.len(),
{
    if s.len() > 0 {
        let t = s.drop_last();
        ad_sirasi_ozellikleri(t, ad);
        assert(forall|j: int| 0 <= j < t.len() ==> t[j] == s[j]);
    }
}

/// Yuklenmis tum tema varyantlarini barindiran kayit.
pub struct TemaKaydi<G> {
    temalar: Vec<Tema<G>>,
}

impl<G> View for TemaKaydi<G> {
    type V = Seq<Tema<G>>;

    closed spec fn view(&self) -> Seq<Tema<G>> {
        self.temalar@
    }
}

impl<G> TemaKaydi<G> {
    /// Tur degismezi: kayittaki adlar benzersizdir.
    #[verifier::type_invariant]
    spec fn adlar_tekil(self) -> bool {
        adlar_benzersiz(self.temalar@)
    }

    /// Kaydin tutarliligi: adlar benzersizdir.
    pub open spec fn gecerli(&self) -> bool {
        adlar_benzersiz(self@)
    }

    /// Tamamen bos kayit.
    pub fn yeni_bos() -> (r: Self)
        ensures
            r@ == Seq::<Tema<G>>::empty(),
            r.gecerli(),
    {
        TemaKaydi { temalar: Vec::new() }
    }

    /// Verilen koyu ve aydinlik temalar onceden eklenmis kayit.
    pub fn varsayilan_ile(koyu: Tema<G>, aydinlik: Tema<G>) -> (r: Self)
        ensures
            r.gecerli(),
            r@ == kayit_sonrasi(kayit_sonrasi(Seq::<Tema<G>>::empty(), koyu), aydinlik),
    {
        let mut kayit = Self::yeni_bos();
        kayit.kaydet(koyu);
        kayit.kaydet(aydinlik);
        kayit
    }

    /// `ad` adli temanin sirasi.
    fn sira_bul(&self, ad: &Vec<char>) -> (r: Option<usize>)
        ensures
            match r {
                Some(i) => ad_sirasi(self@, ad@) == Some(i as int),
                None => ad_sirasi(self@, ad@) == None::<int>,
            },
    {
        let n = self.temalar.len();
        let mut i: usize = 0;
        while i < n
            invariant
                n == self@.len(),
                i <= n,
                ad_sirasi(self@.take(i as int), ad@) == None::<int>,
            decreases n - i,
        {
            let a = karakterler(self.temalar[i].ad.as_str());
            assert(self@.take(i + 1).drop_last() =~= self@.take(i as int));
            if diziler_esit(&a, ad) {
                assert(self@.take(i + 1).last() == self@[i as int]);
                proof {
                    ad_sirasi_onek(self@, ad@, i + 1);
                }
                return Some(i);
            }
            i = i + 1;
        }
        assert(self@.take(n as int) =~= self@);
        None
    }

    /// Ad cakismasi varsa mevcut kaydin uzerine yazar, yoksa sona ekler.
    pub fn kaydet(&mut self, tema: Tema<G>)
        ensures
            final(self).gecerli(),
            final(self)@ == kayit_sonrasi(old(self)@, tema),
    {
        proof {
            use_type_invariant(&*self);
            ad_sirasi_ozellikleri(self@, tema.ad@);
            kaydetme_benzersizligi_korur(self@, tema);
        }
        let ghost once = self@;
        let ad = karakterler(tema.ad.as_str());
        let konum = self.sira_bul(&ad);
        let mut temalar: Vec<Tema<G>> = Vec::new();
        std::mem::swap(&mut temalar, &mut self.temalar);
        assert(temalar@ == once);
        match konum {
            Some(i) => {
                temalar.set(i, tema);
            },
            None => {
                temalar.push(tema);
            },
        }
        assert(temalar@ == kayit_sonrasi(once, tema));
        self.temalar = temalar;
    }

    /// `temalar`'i sirayla kaydeder.
    pub fn hepsini_kaydet(&mut self, temalar: Vec<Tema<G>>)
        ensures
            final(self).gecerli(),
            final(self)@ == hepsi_kaydedilince(old(self)@, temalar@),
    {
        let ghost bas = self@;
        let ghost hepsi = temalar@;
        let toplam = temalar.len();
        let mut kalan = temalar;
        let mut i: usize = 0;
        assert(hepsi.take(0) =~= Seq::<Tema<G>>::empty());
        while kalan.len() > 0
            invariant
                toplam == hepsi.len(),
                i <= hepsi.len(),
                kalan@ == hepsi.skip(i as int),
                self@ == hepsi_kaydedilince(bas, hepsi.take(i as int)),
            decreases kalan@.len(),
        {
            let t = kalan.remove(0);
            assert(hepsi.take(i + 1).drop_last() =~= hepsi.take(i as int));
            assert(hepsi.take(i + 1).last() == t);
            self.kaydet(t);
            i = i + 1;
            assert(kalan@ =~= hepsi.skip(i as int));
        }
        assert(hepsi.take(i as int) =~= hepsi);
        proof {
            use_type_invariant(&*self);
        }
    }

    /// `ad` adli tema.
    pub fn al(&self, ad: &str) -> (r: Option<&Tema<G>>)
        ensures
            match ad_sirasi(self@, ad@) {
                Some(i) => r == Some(&self@[i]),
                None => r is None,
            },
    {
        let a = karakterler(ad);
        match self.sira_bul(&a) {
            Some(i) => {
                proof {
                    ad_sirasi_ozellikleri(self@, ad@);
                }
                Some(&self.temalar[i])
            },
            None => None,
        }
    }

    /// Kayittaki tema adlari, sirasiyla.
    pub fn adlar(&self) -> (r: Vec<String>)
        ensures
            r@.len() == self@.len(),
            forall|i: int| 0 <= i < r@.len() ==> #[trigger] r@[i]@ == self@[i].ad@,
    {
        let n = self.temalar.len();
        let mut r: Vec<String> = Vec::new();
        let mut i: usize = 0;
        while i < n
            invariant
                n == self@.len(),
                i <= n,
                r@.len() == i,
                forall|j: int| 0 <= j < i ==> #[trigger] r@[j]@ == self@[j].ad@,
            decreases n - i,
        {
            r.push(self.temalar[i].ad.clone());
            i = i + 1;
        }
        r
    }

    /// Belirtilen gorunume sahip (koyu veya aydinlik) tum temalar.
    pub fn gorunume_gore(&self, gorunum: Gorunum) -> (r: Vec<&Tema<G>>)
        ensures
            r@.len() == gorunume_sahip(self@, gorunum).len(),
            forall|i: int| 0 <= i < r@.len() ==> *#[trigger] r@[i] == gorunume_sahip(self@, gorunum)[i],
    {
        let n = self.temalar.len();
        let mut r: Vec<&Tema<G>> = Vec::new();
        let mut i: usize = 0;
        while i < n
            invariant
                n == self@.len(),
                i <= n,
                r@.len() == gorunume_sahip(self@.take(i as int), gorunum).len(),
                forall|j: int| 0 <= j < r@.len() ==> *#[trigger] r@[j] == gorunume_sahip(self@.take(i as int), gorunum)[j],
            decreases n - i,
        {
            assert(self@.take(i + 1).drop_last() =~= self@.take(i as int));
            assert(self@.take(i + 1).last() == self@[i as int]);
            let t = &self.temalar[i];
            if t.gorunum == gorunum {
                r.push(t);
            }
            i = i + 1;
        }
        assert(self@.take(n as int) =~= self@);
        r
    }

    /// Bos olmayan bir kayitta ilk tema.
    pub fn ilk(&self) -> (r: Option<&Tema<G>>)
        ensures
            self@.len() > 0 ==> r == Some(&self@[0]),
            self@.len() == 0 ==> r is None,
    {
        if self.temalar.len() > 0 {
            Some(&self.temalar[0])
        } else {
            None
        }
    }
}

/// Bir onekte bulunan ilk sira tum dizide de ilk siradir.
proof fn ad_sirasi_onek<G>(s: Seq<Tema<G>>, ad: Seq<char>, k: int)
    requires
        0 <= k <= s.len(),
        ad_sirasi(s.take(k), ad) is Some,
    ensures
        ad_sirasi(s, ad) == ad_sirasi(s.take(k), ad),
    decreases s.len() - k,
{
    if k < s.len() {
        assert(s.take(k + 1).drop_last() =~= s.take(k));
        ad_sirasi_onek(s, ad, k + 1);
    } else {
        assert(s.take(k) =~= s);
    }
}

/// Ilk eslesme `k` konumundaysa `ad_sirasi` `k`'dir.
proof fn ad_sirasi_konumda<G>(s: Seq<Tema<G>>, ad: Seq<char>, k: int)
    requires
        0 <= k < s.len(),
        s[k].ad@ == ad,
        forall|j: int| 0 <= j < k ==> s[j].ad@ != ad,
    ensures
        ad_sirasi(s, ad) == Some(k),
{
    ad_sirasi_ozellikleri(s, ad);
    match ad_sirasi(s, ad) {
        Some(i) => {
            if i < k {
                assert(s[i].ad@ != ad);
            } else if i > k {
                assert(s[k].ad@ != ad);
            }
        },
        None => {
            assert(s[k].ad@ != ad);
        },
    }
}

/// Hic eslesme yoksa `ad_sirasi` bostur.
proof fn ad_sirasi_yok<G>(s: Seq<Tema<G>>, ad: Seq<char>)
    requires
        forall|j: int| 0 <= j < s.len() ==> s[j].ad@ != ad,
    ensures
        ad_sirasi(s, ad) == None::<int>,
{
    ad_sirasi_ozellikleri(s, ad);
    if let Some(i) = ad_sirasi(s, ad) {
        assert(s[i].ad@ == ad);
    }
}

/// Kaydedilen tema, kendi adiyla arandiginda bulunan temadir.
pub proof fn kaydedilen_bulunur<G>(s: Seq<Tema<G>>, t: Tema<G>)
    ensures
        ({
            let r = kayit_sonrasi(s, t);
            ad_sirasi(r, t.ad@) matches Some(i) && 0 <= i < r.len() && r[i] == t
        }),
{
    let r = kayit_sonrasi(s, t);
    ad_sirasi_ozellikleri(s, t.ad@);
    match ad_sirasi(s, t.ad@) {
        Some(i) => {
            assert forall|j: int| 0 <= j < i implies r[j].ad@ != t.ad@ by {
                assert(r[j] == s[j]);
            }
            ad_sirasi_konumda(r, t.ad@, i);
        },
        None => {
            let n = s.len() as int;
            assert forall|j: int| 0 <= j < n implies r[j].ad@ != t.ad@ by {
                assert(r[j] == s[j]);
            }
            ad_sirasi_konumda(r, t.ad@, n);
        },
    }
}

/// Bir tema kaydedildiginde baska adla yapilan aramalar ayni temayi verir.
pub proof fn baska_adlar_degismez<G>(s: Seq<Tema<G>>, t: Tema<G>, ad: Seq<char>)
    requires
        ad != t.ad@,
    ensures
        ({
            let r = kayit_sonrasi(s, t);
            &&& ad_sirasi(r, ad) == ad_sirasi(s, ad)
            &&& (ad_sirasi(s, ad) matches Some(k) ==> r[k] == s[k])
        }),
{
    let r = kayit_sonrasi(s, t);
    ad_sirasi_ozellikleri(s, ad);
    ad_sirasi_ozellikleri(s, t.ad@);
    let eski = ad_sirasi(s, t.ad@);
    assert forall|j: int| 0 <= j < r.len() implies (r[j].ad@ == ad <==> (j < s.len() && s[j].ad@ == ad)) by {
        match eski {
            Some(i) => {
                if j != i {
                    assert(r[j] == s[j]);
                }
            },
            None => {
                if j < s.len() {
                    assert(r[j] == s[j]);
                }
            },
        }
    }
    match ad_sirasi(s, ad) {
        Some(k) => {
            assert forall|j: int| 0 <= j < k implies r[j].ad@ != ad by {}
            ad_sirasi_konumda(r, ad, k);
            match eski {
                Some(i) => { assert(k != i); },
                None => {},
            }
        },
        None => {
            ad_sirasi_yok(r, ad);
        },
    }
}

/// Ayni temayi ikinci kez kaydetmek kaydi degistirmez.
pub proof fn kaydetme_tekrari_etkisiz<G>(s: Seq<Tema<G>>, t: Tema<G>)
    ensures
        kayit_sonrasi(kayit_sonrasi(s, t), t) == kayit_sonrasi(s, t),
{
    let r = kayit_sonrasi(s, t);
    kaydedilen_bulunur(s, t);
    let i = ad_sirasi(r, t.ad@)->0;
    assert(kayit_sonrasi(r, t) == r.update(i, t));
    assert(r.update(i, t) =~= r);
}

/// Kaydetme ad benzersizligini korur; kayit yalnizca yeni bir adla buyur
/// ve o zaman bir artar.
pub proof fn kaydetme_benzersizligi_korur<G>(s: Seq<Tema<G>>, t: Tema<G>)
    requires
        adlar_benzersiz(s),
    ensures
        adlar_benzersiz(kayit_sonrasi(s, t)),
        kayit_sonrasi(s, t).len() == s.len() + (if ad_sirasi(s, t.ad@) is Some { 0int } else { 1int }),
{
    ad_sirasi_ozellikleri(s, t.ad@);
}

/// Secimin hedef varyanti; bulunamazsa kayittaki ilk tema; kayit bossa yok.
pub fn secim_ile_aktif_tema<'a, G>(secim: &TemaSecimi, sistem: Gorunum, kayit: &'a TemaKaydi<G>) -> (r: Option<&'a Tema<G>>)
    ensures
        match ad_sirasi(kayit@, hedef_adi(*secim, sistem)) {
            Some(i) => r == Some(&kayit@[i]),
            None => if kayit@.len() > 0 {
                r == Some(&kayit@[0])
            } else {
                r is None
            },
        },
        r is Some <==> kayit@.len() > 0,
{
    proof {
        ad_sirasi_ozellikleri(kayit@, hedef_adi(*secim, sistem));
    }
    let hedef = secim.hedef_ad(sistem);
    match kayit.al(hedef) {
        Some(t) => Some(t),
        None => kayit.ilk(),
    }
}

/// Tema kaydini kurar: varsayilan koyu ve aydinlik temalar, ardindan
/// dosyadan gelen varyantlar sirayla (ayni adlilar varsayilanin yerine gecer).
pub fn kayit_kur<G>(koyu: Tema<G>, aydinlik: Tema<G>, dosyadakiler: Vec<Tema<G>>) -> (r: TemaKaydi<G>)
    ensures
        r.gecerli(),
        r@ == hepsi_kaydedilince(
            kayit_sonrasi(kayit_sonrasi(Seq::<Tema<G>>::empty(), koyu), aydinlik),
            dosyadakiler@,
        ),
{
    let mut kayit = TemaKaydi::varsayilan_ile(koyu, aydinlik);
    kayit.hepsini_kaydet(dosyadakiler);
    kayit
}

} // verus!
