//! Gomulu varliklar (ikon SVG'leri): yola gore veri ve bir onekle baslayan
//! yollarin listesi.

use vstd::prelude::*;
use crate::metin::{karakterler, diziler_esit, ile_basliyor, ile_baslar};

verus! {

/// Bir varlik: yolu ve baytlari.
pub struct Varlik {
    pub yol: String,
    pub veri: Vec<u8>,
}

/// Uygulamanin ikon SVG'lerinin yollari.
pub fn svg_yollari() -> (r: [&'static str; 4])
    ensures
        r@[0]@ == "ikonlar/kontrol_kucult.svg"@,
        r@[1]@ == "ikonlar/kontrol_buyut.svg"@,
        r@[2]@ == "ikonlar/kontrol_restore.svg"@,
        r@[3]@ == "ikonlar/kontrol_kapat.svg"@,
{
    [
        "ikonlar/kontrol_kucult.svg",
        "ikonlar/kontrol_buyut.svg",
        "ikonlar/kontrol_restore.svg",
        "ikonlar/kontrol_kapat.svg",
    ]
}

/// `yol`'u tasiyan ilk varligin sirasi.
pub open spec fn varlik_sirasi(s: Seq<Varlik>, yol: Seq<char>) -> Option<int>
    decreases s.len(),
{
    if s.len() == 0 {
        None
    } else {
        match varlik_sirasi(s.drop_last(), yol) {
            Some(i) => Some(i),
            None => if s.last().yol@ == yol {
                Some(s.len() - 1)
            } else {
                None
            },
        }
    }
}

/// Yolu `on` ile baslayan varliklarin yollari, sirasiyla.
pub open spec fn onekli_yollar(s: Seq<Varlik>, on: Seq<char>) -> Seq<Seq<char>>
    decreases s.len(),
{
    if s.len() == 0 {
        Seq::empty()
    } else if ile_baslar(s.last().yol@, on) {
        onekli_yollar(s.drop_last(), on).push(s.last().yol@)
    } else {
        onekli_yollar(s.drop_last(), on)
    }
}

proof fn varlik_sirasi_ozellikleri(s: Seq<Varlik>, yol: Seq<char>)
    ensures
        match varlik_sirasi(s, yol) {
            Some(i) => 0 <= i < s.len() && s[i].yol@ == yol,
            None => forall|j: int| 0 <= j < s.len() ==> s[j].yol@ != yol,
        },
    decreases s.len(),
{
    if s.len() > 0 {
        let t = s.drop_last();
        varlik_sirasi_ozellikleri(t, yol);
        assert(forall|j: int| 0 <= j < t.len() ==> t[j] == s[j]);
    }
}

proof fn varlik_sirasi_onek(s: Seq<Varlik>, yol: Seq<char>, k: int)
    requires
        0 <= k <= s.len(),
        varlik_sirasi(s.take(k), yol) is Some,
    ensures
        varlik_sirasi(s, yol) == varlik_sirasi(s.take(k), yol),
    decreases s.len() - k,
{
    if k < s.len() {
        assert(s.take(k + 1).drop_last() =~= s.take(k));
        varlik_sirasi_onek(s, yol, k + 1);
    } else {
        assert(s.take(k) =~= s);
    }
}

/// Yola gore varlik sunan kaynak.
pub struct VarlikKaynagi {
    varliklar: Vec<Varlik>,
}

impl View for VarlikKaynagi {
    type V = Seq<Varlik>;

    closed spec fn view(&self) -> Seq<Varlik> {
        self.varliklar@
    }
}

impl VarlikKaynagi {
    pub fn yeni(varliklar: Vec<Varlik>) -> (r: Self)
        ensures
            r@ == varliklar@,
    {
        VarlikKaynagi { varliklar }
    }

    /// `path` yolundaki varligin verisi; yoksa hicbiri.
    pub fn load(&self, path: &str) -> (r: Option<&Vec<u8>>)
        ensures
            match varlik_sirasi(self@, path@) {
                Some(i) => r == Some(&self@[i].veri),
                None => r is None,
            },
    {
        let aranan = karakterler(path);
        let n = self.varliklar.len();
        let mut i: usize = 0;
        while i < n
            invariant
                n == self@.len(),
                i <= n,
                aranan@ == path@,
                varlik_sirasi(self@.take(i as int), path@) == None::<int>,
            decreases n - i,
        {
            let y = karakterler(self.varliklar[i].yol.as_str());
            assert(self@.take(i + 1).drop_last() =~= self@.take(i as int));
            if diziler_esit(&y, &aranan) {
                assert(self@.take(i + 1).last() == self@[i as int]);
                proof {
                    varlik_sirasi_onek(self@, path@, i + 1);
                    varlik_sirasi_ozellikleri(self@, path@);
                }
                return Some(&self.varliklar[i].veri);
            }
            i = i + 1;
        }
        assert(self@.take(n as int) =~= self@);
        None
    }

    /// Yolu `path` ile baslayan varliklarin yollari.
    pub fn list(&self, path: &str) -> (r: Vec<String>)
        ensures
            r@.len() == onekli_yollar(self@, path@).len(),
            forall|i: int| 0 <= i < r@.len() ==> #[trigger] r@[i]@ == onekli_yollar(self@, path@)[i],
    {
        let on = karakterler(path);
        let n = self.varliklar.len();
        let mut r: Vec<String> = Vec::new();
        let mut i: usize = 0;
        while i < n
            invariant
                n == self@.len(),
                i <= n,
                on@ == path@,
                r@.len() == onekli_yollar(self@.take(i as int), path@).len(),
                forall|j: int| 0 <= j < r@.len() ==> #[trigger] r@[j]@ == onekli_yollar(self@.take(i as int), path@)[j],
            decreases n - i,
        {
            assert(self@.take(i + 1).drop_last() =~= self@.take(i as int));
            assert(self@.take(i + 1).last() == self@[i as int]);
            let y = karakterler(self.varliklar[i].yol.as_str());
            if ile_basliyor(&y, &on) {
                r.push(self.varliklar[i].yol.clone());
            }
            i = i + 1;
        }
        assert(self@.take(n as int) =~= self@);
        r
    }
}

} // verus!
