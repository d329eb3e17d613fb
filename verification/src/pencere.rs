//! Pencere davranis kararlari: golge seridinde yeniden boyutlandirma kenari
//! ve imleci, ust bar fare etkilesimleri, calisma yuzeyi kose kavisleri ve
//! kapatma onayi.

use vstd::prelude::*;
use crate::gorunum::Platform;
use crate::kontroller::DesteklenenKontroller;

verus! {

/// Linux'ta pencere ile `.desktop` girdisini eslestiren uygulama kimligi.
pub const UYGULAMA_APP_ID: &'static str = "KavisNet";

/// Pencerenin yeniden boyutlandirildigi kenar ya da kose.
#[derive(Clone, Copy, Debug, PartialEq, Eq, Structural)]
pub enum ResizeKenari {
    Ust,
    Alt,
    Sol,
    Sag,
    SolUst,
    SagUst,
    SolAlt,
    SagAlt,
}

/// Fare konumunun golge seridine gore kenari. Konum karsilastirmalari
/// verilir: `ust` y < golge, `alt` y > yukseklik - golge, `sol` x < golge,
/// `sag` x > genislik - golge. Koseler kenarlardan, ust alttan, sol sagdan
/// once gelir.
pub open spec fn kenar_degeri(ust: bool, alt: bool, sol: bool, sag: bool) -> Option<ResizeKenari> {
    if ust && sol {
        Some(ResizeKenari::SolUst)
    } else if ust && sag {
        Some(ResizeKenari::SagUst)
    } else if ust {
        Some(ResizeKenari::Ust)
    } else if alt && sol {
        Some(ResizeKenari::SolAlt)
    } else if alt && sag {
        Some(ResizeKenari::SagAlt)
    } else if alt {
        Some(ResizeKenari::Alt)
    } else if sol {
        Some(ResizeKenari::Sol)
    } else if sag {
        Some(ResizeKenari::Sag)
    } else {
        None
    }
}

/// Fare konumunun hangi yeniden boyutlandirma kenarinda oldugunu dondurur;
/// hicbir seritte degilse yok.
pub fn golge_kenar_bul(ust: bool, alt: bool, sol: bool, sag: bool) -> (r: Option<ResizeKenari>)
    ensures
        r == kenar_degeri(ust, alt, sol, sag),
        r is None <==> !ust && !alt && !sol && !sag,
{
    let kenar = if ust && sol {
        ResizeKenari::SolUst
    } else if ust && sag {
        ResizeKenari::SagUst
    } else if ust {
        ResizeKenari::Ust
    } else if alt && sol {
        ResizeKenari::SolAlt
    } else if alt && sag {
        ResizeKenari::SagAlt
    } else if alt {
        ResizeKenari::Alt
    } else if sol {
        ResizeKenari::Sol
    } else if sag {
        ResizeKenari::Sag
    } else {
        return None;
    };
    Some(kenar)
}

/// Yeniden boyutlandirma imleci.
#[derive(Clone, Copy, Debug, PartialEq, Eq, Structural)]
pub enum ImlecBicimi {
    YukariAsagi,
    SolSag,
    SolUstSagAlt,
    SagUstSolAlt,
}

/// Kenara gore imlec: dikey kenarlar yukari-asagi, yatay kenarlar sol-sag,
/// koseler kendi capraz yonleri.
pub fn kenar_imleci(kenar: ResizeKenari) -> (r: ImlecBicimi)
    ensures
        r == (match kenar {
            ResizeKenari::Ust | ResizeKenari::Alt => ImlecBicimi::YukariAsagi,
            ResizeKenari::Sol | ResizeKenari::Sag => ImlecBicimi::SolSag,
            ResizeKenari::SolUst | ResizeKenari::SagAlt => ImlecBicimi::SolUstSagAlt,
            ResizeKenari::SagUst | ResizeKenari::SolAlt => ImlecBicimi::SagUstSolAlt,
        }),
{
    match kenar {
        ResizeKenari::Ust | ResizeKenari::Alt => ImlecBicimi::YukariAsagi,
        ResizeKenari::Sol | ResizeKenari::Sag => ImlecBicimi::SolSag,
        ResizeKenari::SolUst | ResizeKenari::SagAlt => ImlecBicimi::SolUstSagAlt,
        ResizeKenari::SagUst | ResizeKenari::SolAlt => ImlecBicimi::SagUstSolAlt,
    }
}

/// Ust barda sol tusa basilinca yapilacak is.
#[derive(Clone, Copy, Debug, PartialEq, Eq, Structural)]
pub enum UstBarEylemi {
    /// macOS'ta sistemin baslik cubugu cift tiklama davranisi.
    BaslikCiftTiklama,
    /// Diger platformlarda pencereyi buyut/geri al.
    Yakinlastir,
    /// Tek tiklama: fare hareket ederse pencere tasinmaya baslar.
    TasimayaHazirlan,
}

/// Ust bar: surukleme, fare tusu basiliyken ilk hareket olayinda baslar;
/// boylece tek tiklama pencereyi kaydirmaz ve cift tiklama ile cakismaz.
pub struct UstBar {
    pub should_move: bool,
}

impl UstBar {
    pub fn yeni() -> (r: Self)
        ensures
            !r.should_move,
    {
        UstBar { should_move: false }
    }

    /// Sol tus basildi: cift tiklamada platformun buyutme davranisi, aksi
    /// halde tasimaya hazirlanilir.
    pub fn sol_basildi(&mut self, tiklama_sayisi: usize, platform: Platform) -> (r: UstBarEylemi)
        ensures
            tiklama_sayisi == 2 ==> final(self).should_move == old(self).should_move && r == (if platform == Platform::MacOs {
                UstBarEylemi::BaslikCiftTiklama
            } else {
                UstBarEylemi::Yakinlastir
            }),
            tiklama_sayisi != 2 ==> final(self).should_move && r == UstBarEylemi::TasimayaHazirlan,
    {
        if tiklama_sayisi == 2 {
            match platform {
                Platform::MacOs => UstBarEylemi::BaslikCiftTiklama,
                _ => UstBarEylemi::Yakinlastir,
            }
        } else {
            self.should_move = true;
            UstBarEylemi::TasimayaHazirlan
        }
    }

    /// Sol tus birakildi: bekleyen tasima iptal.
    pub fn sol_birakildi(&mut self)
        ensures
            !final(self).should_move,
    {
        self.should_move = false;
    }

    /// Fare hareket etti: bekleyen bir tasima varsa tuketilir; pencere
    /// tasimasi yalnizca Linux'ta baslatilir.
    pub fn fare_hareket_etti(&mut self, platform: Platform) -> (tasi: bool)
        ensures
            !final(self).should_move,
            tasi == (old(self).should_move && platform == Platform::Linux),
    {
        if !self.should_move {
            return false;
        }
        self.should_move = false;
        match platform {
            Platform::Linux => true,
            _ => false,
        }
    }
}

/// Sag tiklamada pencere menusu gosterilmeli mi: Linux'ta, istemci tarafli
/// dekorasyonda ve pencere menusu destekleniyorsa.
pub fn pencere_menusu_gosterilmeli(platform: Platform, istemci_dekorasyonu: bool, kontroller: DesteklenenKontroller) -> (r: bool)
    ensures
        r == (platform == Platform::Linux && istemci_dekorasyonu && kontroller.pencere_menusu),
{
    match platform {
        Platform::Linux => istemci_dekorasyonu && kontroller.pencere_menusu,
        _ => false,
    }
}

/// Calisma yuzeyinin kavisli koseleri (sag alt her zaman pencere kavisini alir).
#[derive(Clone, Copy, Debug, PartialEq, Eq, Structural)]
pub struct KoseKavisleri {
    /// Sag ust kose pencere kavisini alir.
    pub sag_ust: bool,
    /// Sol ust kose calisma yuzeyi kavisini alir.
    pub sol_ust: bool,
}

/// Ust bar ve sol menu arasindaki calisma alani.
pub struct CalismaYuzeyi;

impl CalismaYuzeyi {
    pub fn new() -> Self {
        CalismaYuzeyi
    }

    /// Ust sinir (ust bar icerigin ustunde) acikken sag ust kose kavislidir;
    /// sol ust kose ayrica calisma yuzeyi kavisi istenmisse kavislidir.
    pub fn kose_kavisleri(&self, ust_sinir: bool, calisma_yuzeyi_kavisli_mi: bool) -> (r: KoseKavisleri)
        ensures
            r.sag_ust == ust_sinir,
            r.sol_ust == (ust_sinir && calisma_yuzeyi_kavisli_mi),
    {
        KoseKavisleri { sag_ust: ust_sinir, sol_ust: calisma_yuzeyi_kavisli_mi && ust_sinir }
    }
}

/// Kapatma isteginin onaylanip onaylanmadigi: kaydedilmemis durum olmadigindan
/// her zaman onaylanir.
pub fn kapatma_istegi() -> (r: bool)
    ensures
        r,
{
    true
}

} // verus!
