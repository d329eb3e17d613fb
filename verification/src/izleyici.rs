//! Tema dosyasi izleyicisinin kararlari: hangi dosya olaylarinin ilgili
//! oldugu ve dosya yeniden okundugunda temanin yenilenmesi, varsayilana
//! donulmesi ya da hicbir sey yapilmamasi.

use vstd::prelude::*;
use crate::metin::{karakterler, diziler_esit};

verus! {

/// Dosya sistemi olayinin turu.
#[derive(Clone, Copy, Debug, PartialEq, Eq, Structural)]
pub enum DosyaOlayiTuru {
    Degisti,
    Olusturuldu,
    Silindi,
    Diger,
}

/// Olay temayi ilgilendiriyor mu: tema dosyasinin yolunu tasiyan bir
/// degisiklik, olusturma ya da silme.
pub fn olay_ilgili(tema_dosyasina_ait: bool, tur: DosyaOlayiTuru) -> (r: bool)
    ensures
        r == (tema_dosyasina_ait && tur != DosyaOlayiTuru::Diger),
{
    if !tema_dosyasina_ait {
        return false;
    }
    match tur {
        DosyaOlayiTuru::Diger => false,
        _ => true,
    }
}

/// Dosya yeniden okununca yapilacak is.
#[derive(Clone, Copy, Debug, PartialEq, Eq, Structural)]
pub enum IzleyiciEylemi {
    /// Icerik degismedi.
    Yok,
    /// Icerik degisti: kayit ve aktif tema dosyadan yeniden kurulur.
    Yenile,
    /// Dosya okunamadi: varsayilan aileden yeniden kurulur.
    VarsayilanaDon,
}

/// Son okunan icerik ve okuma sonucundan sonraki icerik ve eylem.
pub open spec fn izleyici_gecisi(son: Seq<char>, okunan: Option<Seq<char>>) -> (Seq<char>, IzleyiciEylemi) {
    match okunan {
        Some(yeni) => if yeni != son {
            (yeni, IzleyiciEylemi::Yenile)
        } else {
            (son, IzleyiciEylemi::Yok)
        },
        None => (Seq::empty(), IzleyiciEylemi::VarsayilanaDon),
    }
}

/// Izleyicinin bildigi son tema dosyasi icerigi.
pub struct TemaIzleyicisi {
    son_icerik: String,
}

impl TemaIzleyicisi {
    pub closed spec fn son(&self) -> Seq<char> {
        self.son_icerik@
    }

    /// Baslangic okumasi; dosya okunamadiysa bos icerik.
    pub fn baslat(okunan: Option<String>) -> (r: Self)
        ensures
            r.son() == (match okunan {
                Some(s) => s@,
                None => Seq::<char>::empty(),
            }),
    {
        match okunan {
            Some(s) => TemaIzleyicisi { son_icerik: s },
            None => TemaIzleyicisi { son_icerik: String::new() },
        }
    }

    /// Bir olaydan sonra dosya yeniden okundu (`None`: okunamadi).
    pub fn okuma_sonucu(&mut self, okunan: Option<String>) -> (r: IzleyiciEylemi)
        ensures
            (final(self).son(), r) == izleyici_gecisi(old(self).son(), match okunan {
                Some(s) => Some(s@),
                None => None,
            }),
    {
        match okunan {
            Some(yeni) => {
                let a = karakterler(yeni.as_str());
                let b = karakterler(self.son_icerik.as_str());
                if !diziler_esit(&a, &b) {
                    self.son_icerik = yeni;
                    IzleyiciEylemi::Yenile
                } else {
                    IzleyiciEylemi::Yok
                }
            },
            None => {
                self.son_icerik = String::new();
                IzleyiciEylemi::VarsayilanaDon
            },
        }
    }
}

/// Ayni icerik ust uste okundugunda ikinci okuma temayi yeniden kurmaz;
/// okunamayan dosyanin ardindan bos olmayan icerik okununca tema yenilenir.
pub proof fn izleyici_tekrar_yenilemez(son: Seq<char>, icerik: Seq<char>)
    ensures
        izleyici_gecisi(izleyici_gecisi(son, Some(icerik)).0, Some(icerik)).1 == IzleyiciEylemi::Yok,
        icerik.len() > 0 ==> izleyici_gecisi(izleyici_gecisi(son, None).0, Some(icerik)).1
            == IzleyiciEylemi::Yenile,
{
}

} // verus!
