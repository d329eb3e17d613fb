//! Tema gorunumu (koyu/aydinlik), tema secimi, pencere arka plan modu ve
//! sistemin blur destegine gore pencere gorunumu kararlari.

use vstd::prelude::*;
use crate::metin::{icerir, icinde_var, karakterler, metinler_esit};

verus! {

/// Temanin aydinlik/koyu yonu.
#[derive(Clone, Copy, Debug, PartialEq, Eq, Structural)]
pub enum Gorunum {
    Koyu,
    Aydinlik,
}

impl Default for Gorunum {
    fn default() -> (r: Self)
        ensures
            r == Gorunum::Koyu,
    {
        Gorunum::Koyu
    }
}

/// Isletim sisteminin bildirdigi renk tercihi: koyu, aydinlik ya da
/// tercih bildirilmemis.
#[derive(Clone, Copy, Debug, PartialEq, Eq, Structural)]
pub enum SistemModu {
    Koyu,
    Aydinlik,
    Belirtilmemis,
}

/// Isletim sistemi genelindeki aydinlik/koyu tercihi.
#[derive(Clone, Copy, Debug, PartialEq, Eq, Structural)]
pub struct SistemGorunumu(pub Gorunum);

impl Default for SistemGorunumu {
    fn default() -> (r: Self)
        ensures
            r == SistemGorunumu(Gorunum::Koyu),
    {
        SistemGorunumu(Gorunum::Koyu)
    }
}

impl SistemGorunumu {
    /// Sistemin bildirdigi moddan gorunum: tercih bildirilmemisse koyu.
    pub fn moddan(mod_: SistemModu) -> (r: Self)
        ensures
            r.0 == (match mod_ {
                SistemModu::Aydinlik => Gorunum::Aydinlik,
                _ => Gorunum::Koyu,
            }),
    {
        match mod_ {
            SistemModu::Koyu => SistemGorunumu(Gorunum::Koyu),
            SistemModu::Aydinlik => SistemGorunumu(Gorunum::Aydinlik),
            SistemModu::Belirtilmemis => SistemGorunumu(Gorunum::Koyu),
        }
    }
}

/// Pencere arka plan modu: otomatik (sistem destekliyorsa blur, yoksa
/// seffaf), seffaf ya da opak.
#[derive(Clone, Copy, Debug, PartialEq, Eq, Structural)]
pub enum PencereModu {
    Otomatik,
    Seffaf,
    Opak,
}

impl Default for PencereModu {
    fn default() -> (r: Self)
        ensures
            r == PencereModu::Otomatik,
    {
        PencereModu::Otomatik
    }
}

/// Pencerenin arka plan gorunumu.
#[derive(Clone, Copy, Debug, PartialEq, Eq, Structural)]
pub enum PencereGorunumu {
    Opak,
    Seffaf,
    Bulanik,
}

/// Uygulamanin calistigi masaustu platformu.
#[derive(Clone, Copy, Debug, PartialEq, Eq, Structural)]
pub enum Platform {
    MacOs,
    Windows,
    Linux,
}

/// Kullanicinin aktif varyant tercihi: tek bir sabit varyant ya da sistem
/// gorunumune gore secilen aydinlik/koyu varyant adlari.
#[derive(Clone, Debug)]
pub enum TemaSecimi {
    Sabit { varyant: String },
    Sistem { aydinlik: String, koyu: String },
}

/// Secim ve sistem gorunumune gore hedef varyantin adi.
pub open spec fn hedef_adi(secim: TemaSecimi, sistem: Gorunum) -> Seq<char> {
    match secim {
        TemaSecimi::Sabit { varyant } => varyant@,
        TemaSecimi::Sistem { aydinlik, koyu } => match sistem {
            Gorunum::Aydinlik => aydinlik@,
            Gorunum::Koyu => koyu@,
        },
    }
}

impl TemaSecimi {
    /// Verilen sistem gorunumuyle aktif varyantin adini dondurur.
    pub fn hedef_ad(&self, sistem: Gorunum) -> (r: &str)
        ensures
            r@ == hedef_adi(*self, sistem),
    {
        match self {
            TemaSecimi::Sabit { varyant } => varyant.as_str(),
            TemaSecimi::Sistem { aydinlik, koyu } => match sistem {
                Gorunum::Aydinlik => aydinlik.as_str(),
                Gorunum::Koyu => koyu.as_str(),
            },
        }
    }
}

/// `str::to_uppercase`'in sonucu (Unicode buyuk harf esleme tablosuna gore).
pub uninterp spec fn buyuk_harfli(s: Seq<char>) -> Seq<char>;

/// `str::to_uppercase`'i cagirir; sonucun `buyuk_harfli(s@)` oldugunu
/// soyler, eslemenin kendisini anlatmaz.
#[verifier::external_body]
fn buyuk_harfe_cevir(s: &str) -> (r: String)
    ensures
        r@ == buyuk_harfli(s@),
{
    s.to_uppercase()
}

/// Buyuk harfe cevrilmis masaustu adinda compositor blur protokolunu sunan
/// bir masaustu (KDE Plasma, Hyprland ya da Wayfire) geciyor mu.
pub open spec fn blur_destekli_ad(buyuk_masaustu: Seq<char>) -> bool {
    ||| icerir(buyuk_masaustu, seq!['K', 'D', 'E'])
    ||| icerir(buyuk_masaustu, seq!['H', 'Y', 'P', 'R', 'L', 'A', 'N', 'D'])
    ||| icerir(buyuk_masaustu, seq!['W', 'A', 'Y', 'F', 'I', 'R', 'E'])
}

/// Linux'ta oturum turu ve buyuk harfe cevrilmis masaustu adiyla pencere
/// gorunumu: Wayland oturumunda blur destekli bir masaustunde bulanik,
/// aksi halde seffaf.
pub open spec fn linux_blur_gorunumu(oturum: Seq<char>, buyuk_masaustu: Seq<char>) -> PencereGorunumu {
    if oturum == seq!['w', 'a', 'y', 'l', 'a', 'n', 'd'] && blur_destekli_ad(buyuk_masaustu) {
        PencereGorunumu::Bulanik
    } else {
        PencereGorunumu::Seffaf
    }
}

/// Platformun otomatik modda verecegi pencere gorunumu: macOS ve Windows'ta
/// bulanik; Linux'ta masaustu adi buyuk harfe cevrilerek karar verilir.
pub open spec fn sistem_blur_gorunumu(platform: Platform, oturum: Seq<char>, masaustu: Seq<char>) -> PencereGorunumu {
    match platform {
        Platform::MacOs => PencereGorunumu::Bulanik,
        Platform::Windows => PencereGorunumu::Bulanik,
        Platform::Linux => linux_blur_gorunumu(oturum, buyuk_harfli(masaustu)),
    }
}

/// Linux'ta blur karari; masaustu adi buyuk harfe cevrilmis olarak verilir.
pub fn linux_blur_karari(oturum: &str, buyuk_masaustu: &str) -> (r: PencereGorunumu)
    ensures
        r == linux_blur_gorunumu(oturum@, buyuk_masaustu@),
{
    let b = karakterler(buyuk_masaustu);
    let kde = vec!['K', 'D', 'E'];
    let hyprland = vec!['H', 'Y', 'P', 'R', 'L', 'A', 'N', 'D'];
    let wayfire = vec!['W', 'A', 'Y', 'F', 'I', 'R', 'E'];
    let destekli = icinde_var(&b, &kde) || icinde_var(&b, &hyprland) || icinde_var(&b, &wayfire);
    let wayland = metinler_esit(oturum, "wayland");
    proof {
        reveal_strlit("wayland");
        assert("wayland"@ =~= seq!['w', 'a', 'y', 'l', 'a', 'n', 'd']);
        assert(kde@ =~= seq!['K', 'D', 'E']);
        assert(hyprland@ =~= seq!['H', 'Y', 'P', 'R', 'L', 'A', 'N', 'D']);
        assert(wayfire@ =~= seq!['W', 'A', 'Y', 'F', 'I', 'R', 'E']);
    }
    if wayland && destekli {
        PencereGorunumu::Bulanik
    } else {
        PencereGorunumu::Seffaf
    }
}

/// Blur yasasi: Linux'ta pencere ancak ve ancak oturum tam olarak "wayland"
/// ve buyuk harfe cevrilmis masaustu adinda "KDE", "HYPRLAND" ya da
/// "WAYFIRE" geciyorsa bulaniktir; aksi halde (ornegin "SWAY", "GNOME",
/// "WESTON") seffaftir. macOS ve Windows'ta her zaman bulaniktir.
pub proof fn blur_yasasi(oturum: Seq<char>, masaustu: Seq<char>, buyuk: Seq<char>)
    ensures
        linux_blur_gorunumu(oturum, buyuk) == PencereGorunumu::Bulanik <==> (oturum
            == seq!['w', 'a', 'y', 'l', 'a', 'n', 'd'] && (icerir(buyuk, seq!['K', 'D', 'E'])
            || icerir(buyuk, seq!['H', 'Y', 'P', 'R', 'L', 'A', 'N', 'D'])
            || icerir(buyuk, seq!['W', 'A', 'Y', 'F', 'I', 'R', 'E']))),
        linux_blur_gorunumu(oturum, buyuk) == PencereGorunumu::Seffaf <==> !(oturum
            == seq!['w', 'a', 'y', 'l', 'a', 'n', 'd'] && (icerir(buyuk, seq!['K', 'D', 'E'])
            || icerir(buyuk, seq!['H', 'Y', 'P', 'R', 'L', 'A', 'N', 'D'])
            || icerir(buyuk, seq!['W', 'A', 'Y', 'F', 'I', 'R', 'E']))),
        sistem_blur_gorunumu(Platform::Linux, oturum, masaustu) == linux_blur_gorunumu(oturum, buyuk_harfli(masaustu)),
        sistem_blur_gorunumu(Platform::MacOs, oturum, masaustu) == PencereGorunumu::Bulanik,
        sistem_blur_gorunumu(Platform::Windows, oturum, masaustu) == PencereGorunumu::Bulanik,
        kde_linux_gorunumu(oturum, buyuk) == PencereGorunumu::Bulanik <==> (oturum
            == seq!['w', 'a', 'y', 'l', 'a', 'n', 'd'] && icerir(buyuk, seq!['K', 'D', 'E'])),
{
}

/// Mevcut platformda compositor blur destegi olup olmadigini, oturum turu
/// (`XDG_SESSION_TYPE`) ve masaustu adi (`XDG_CURRENT_DESKTOP`) ile belirler.
pub fn sistem_blur_destegi(platform: Platform, oturum: &str, masaustu: &str) -> (r: PencereGorunumu)
    ensures
        r == sistem_blur_gorunumu(platform, oturum@, masaustu@),
{
    match platform {
        Platform::MacOs => PencereGorunumu::Bulanik,
        Platform::Windows => PencereGorunumu::Bulanik,
        Platform::Linux => {
            let buyuk = buyuk_harfe_cevir(masaustu);
            linux_blur_karari(oturum, buyuk.as_str())
        },
    }
}

/// Pencere arka plan renginin alfasinin kaynagi.
#[derive(Clone, Copy, Debug, PartialEq, Eq, Structural)]
pub enum PencereAlfasi {
    /// Blur aktifken kullanilan seffaflik.
    BlurSeffafligi,
    /// Seffaf modda kullanilan seffaflik.
    SeffafSeffafligi,
    /// Tam opak (1.0).
    Tam,
}

/// Bir varyantin pencere ayarlarinin cozumu: gorunum, arka plan alfasinin
/// kaynagi ve kose kavisinin uygulanip uygulanmadigi.
#[derive(Clone, Copy, Debug, PartialEq, Eq, Structural)]
pub struct PencereCozumu {
    pub gorunum: PencereGorunumu,
    pub alfa: PencereAlfasi,
    pub kavisli: bool,
}

/// Varyantin pencere gorunumu: ust sinir kapaliysa pencere klasik gorunum
/// alir (opak); aksi halde mod belirler, otomatik mod sistemin blur
/// destegine uyar.
pub open spec fn pencere_gorunumu_degeri(ust_sinir: bool, mod_: PencereModu, sistem_blur: PencereGorunumu) -> PencereGorunumu {
    if !ust_sinir {
        PencereGorunumu::Opak
    } else {
        match mod_ {
            PencereModu::Otomatik => sistem_blur,
            PencereModu::Seffaf => PencereGorunumu::Seffaf,
            PencereModu::Opak => PencereGorunumu::Opak,
        }
    }
}

/// Gorunume gore pencere arka plan alfasinin kaynagi.
pub open spec fn alfa_kaynagi(g: PencereGorunumu) -> PencereAlfasi {
    match g {
        PencereGorunumu::Bulanik => PencereAlfasi::BlurSeffafligi,
        PencereGorunumu::Seffaf => PencereAlfasi::SeffafSeffafligi,
        PencereGorunumu::Opak => PencereAlfasi::Tam,
    }
}

/// Pencere cozumu yasasi: ust sinir kapaliyken pencere, mod ve sistemin blur
/// destegi ne olursa olsun opaktir, alfasi tamdir ve kose kavisi yoktur.
/// Ust sinir acikken opak mod opak, seffaf mod seffaf verir; otomatik mod
/// sistemin verdigi gorunumu alir. Alfa, bulanikta blur seffafligi, seffafta
/// seffaf seffafligi, opakta tamdir.
pub proof fn pencere_cozumu_yasasi(mod_: PencereModu, sistem_blur: PencereGorunumu)
    ensures
        pencere_gorunumu_degeri(false, mod_, sistem_blur) == PencereGorunumu::Opak,
        alfa_kaynagi(pencere_gorunumu_degeri(false, mod_, sistem_blur)) == PencereAlfasi::Tam,
        pencere_gorunumu_degeri(true, PencereModu::Opak, sistem_blur) == PencereGorunumu::Opak,
        pencere_gorunumu_degeri(true, PencereModu::Seffaf, sistem_blur) == PencereGorunumu::Seffaf,
        pencere_gorunumu_degeri(true, PencereModu::Otomatik, sistem_blur) == sistem_blur,
        alfa_kaynagi(PencereGorunumu::Bulanik) == PencereAlfasi::BlurSeffafligi,
        alfa_kaynagi(PencereGorunumu::Seffaf) == PencereAlfasi::SeffafSeffafligi,
        alfa_kaynagi(PencereGorunumu::Opak) == PencereAlfasi::Tam,
{
}

/// Varyantin pencere ayarlarini cozer. Opak pencerede kose kavisi yoktur.
pub fn pencere_cozumu(ust_sinir: bool, mod_: PencereModu, sistem_blur: PencereGorunumu) -> (r: PencereCozumu)
    ensures
        r.gorunum == pencere_gorunumu_degeri(ust_sinir, mod_, sistem_blur),
        r.alfa == alfa_kaynagi(r.gorunum),
        r.kavisli == (r.gorunum != PencereGorunumu::Opak),
{
    let gorunum = if !ust_sinir {
        PencereGorunumu::Opak
    } else {
        match mod_ {
            PencereModu::Otomatik => sistem_blur,
            PencereModu::Seffaf => PencereGorunumu::Seffaf,
            PencereModu::Opak => PencereGorunumu::Opak,
        }
    };
    let alfa = match gorunum {
        PencereGorunumu::Bulanik => PencereAlfasi::BlurSeffafligi,
        PencereGorunumu::Seffaf => PencereAlfasi::SeffafSeffafligi,
        PencereGorunumu::Opak => PencereAlfasi::Tam,
    };
    let kavisli = match gorunum {
        PencereGorunumu::Opak => false,
        _ => true,
    };
    PencereCozumu { gorunum, alfa, kavisli }
}

/// `yeni` gorunum pencereye bildirilmeli mi: son bildirilenden farkliysa.
pub open spec fn bildirilmeli(son: Option<PencereGorunumu>, yeni: PencereGorunumu) -> bool {
    son != Some(yeni)
}

/// Pencereye en son bildirilen arka plan gorunumu. Gorunum yalnizca
/// degistiginde pencereye yeniden bildirilir.
pub struct GorunumIzleyici {
    pub son: Option<PencereGorunumu>,
}

impl GorunumIzleyici {
    pub fn yeni() -> (r: Self)
        ensures
            r.son == None::<PencereGorunumu>,
    {
        GorunumIzleyici { son: None }
    }

    /// `yeni` gorunum son bildirilenden farkliysa `true` dondurur (pencereye
    /// bildirilmeli); her durumda son bildirilen `yeni` olur.
    pub fn degisti_mi(&mut self, yeni: PencereGorunumu) -> (r: bool)
        ensures
            r == bildirilmeli(old(self).son, yeni),
            final(self).son == Some(yeni),
    {
        let ayni = match self.son {
            Some(g) => g == yeni,
            None => false,
        };
        if !ayni {
            self.son = Some(yeni);
        }
        !ayni
    }
}

/// Ayni gorunum ust uste iki kez verildiginde ikincisi pencereye bildirilmez;
/// farkli bir gorunum ise her zaman bildirilir.
pub proof fn gorunum_yalnizca_degisince_bildirilir(a: PencereGorunumu, b: PencereGorunumu)
    ensures
        !bildirilmeli(Some(a), a),
        a != b ==> bildirilmeli(Some(a), b),
{
}

/// Yalnizca KDE Plasma'yi blur destekli sayan Linux karari: Wayland
/// oturumunda buyuk harfli masaustu adinda "KDE" geciyorsa bulanik, aksi
/// halde seffaf.
pub open spec fn kde_linux_gorunumu(oturum: Seq<char>, buyuk_masaustu: Seq<char>) -> PencereGorunumu {
    if oturum == seq!['w', 'a', 'y', 'l', 'a', 'n', 'd'] && icerir(buyuk_masaustu, seq!['K', 'D', 'E']) {
        PencereGorunumu::Bulanik
    } else {
        PencereGorunumu::Seffaf
    }
}

/// Yalnizca KDE Plasma'yi blur destekli sayan platform karari: macOS ve
/// Windows'ta bulanik; Linux'ta masaustu adi buyuk harfe cevrilerek karar verilir.
pub open spec fn kde_blur_gorunumu(platform: Platform, oturum: Seq<char>, masaustu: Seq<char>) -> PencereGorunumu {
    match platform {
        Platform::Linux => kde_linux_gorunumu(oturum, buyuk_harfli(masaustu)),
        _ => PencereGorunumu::Bulanik,
    }
}

/// Yalnizca KDE Plasma'yi taniyan Linux karari; masaustu adi buyuk harfe
/// cevrilmis olarak verilir.
pub fn yalnizca_kde_linux_karari(oturum: &str, buyuk_masaustu: &str) -> (r: PencereGorunumu)
    ensures
        r == kde_linux_gorunumu(oturum@, buyuk_masaustu@),
{
    let b = karakterler(buyuk_masaustu);
    let kde = vec!['K', 'D', 'E'];
    let destekli = icinde_var(&b, &kde);
    let wayland = metinler_esit(oturum, "wayland");
    proof {
        reveal_strlit("wayland");
        assert("wayland"@ =~= seq!['w', 'a', 'y', 'l', 'a', 'n', 'd']);
        assert(kde@ =~= seq!['K', 'D', 'E']);
    }
    if wayland && destekli {
        PencereGorunumu::Bulanik
    } else {
        PencereGorunumu::Seffaf
    }
}

/// Blur destegini yalnizca KDE Plasma icin taniyan daha dar karar.
pub fn yalnizca_kde_blur_destegi(platform: Platform, oturum: &str, masaustu: &str) -> (r: PencereGorunumu)
    ensures
        r == kde_blur_gorunumu(platform, oturum@, masaustu@),
{
    match platform {
        Platform::Linux => {
            let buyuk = buyuk_harfe_cevir(masaustu);
            yalnizca_kde_linux_karari(oturum, buyuk.as_str())
        },
        _ => PencereGorunumu::Bulanik,
    }
}

} // verus!
