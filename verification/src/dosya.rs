//! Diske yazilan metinlerin bicimi: tema dosyasi, hata kaydi ve Linux
//! `.desktop` girdisi; ikon ve `.desktop` dosyalarinin guncellenme kararlari.

use vstd::prelude::*;
use vstd::string::StringExecFns;
use crate::pencere::UYGULAMA_APP_ID;

verus! {

/// Varsayilan tema dosyasinin basina yazilan aciklama.
pub const TEMA_DOSYASI_BASLIGI: &'static str = "\
# KavisNet Tema Dosyasi
#
# Bu dosya bir tema AILESIDIR: birden cok varyant (koyu/aydinlik) icerir.
# Aktif varyanti `secim` bloguyla secersin:
#
#   [secim]
#   mod = \"sabit\"            # tek bir varyanti zorla
#   varyant = \"KavisNet Koyu\"
#
#   [secim]
#   mod = \"sistem\"           # sistemin koyu/aydinlik tercihini izle
#   aydinlik = \"KavisNet Aydinlik\"
#   koyu = \"KavisNet Koyu\"
#
# Pencere modu:
#   \"otomatik\" - Sistem blur destekliyorsa blur, yoksa seffaf
#   \"seffaf\"   - Her zaman seffaf (blur yok)
#   \"opak\"     - Her zaman opak
#
# Gorunum alani: \"koyu\" veya \"aydinlik\" — `secim` sistem modunda iken
#               hangi varyantin aydinlik/koyu sayilacagini belirtir.
#
# Renkler: \"#RRGGBB\" veya \"#RRGGBBAA\" (alfa ile)
# Seffaflik: 0.0 (gorunmez) - 1.0 (opak)

";

/// Varsayilan tema dosyasinin icerigi: aciklama basligi ve TOML metni.
pub fn tema_dosyasi_icerigi(toml_metni: &str) -> (r: String)
    ensures
        r@ == TEMA_DOSYASI_BASLIGI@ + toml_metni@,
{
    let mut r = String::from_str(TEMA_DOSYASI_BASLIGI);
    r.append(toml_metni);
    r
}

/// Hata kaydi dosyasinin adi: `tema_hatalari_<tarih>.log`.
pub fn log_dosya_adi(tarih: &str) -> (r: String)
    ensures
        r@ == "tema_hatalari_"@ + tarih@ + ".log"@,
{
    let mut r = String::from_str("tema_hatalari_");
    r.append(tarih);
    r.append(".log");
    r
}

/// Hata kaydi satiri: `[<zaman>] HATA: <hata>` ve satir sonu.
pub fn log_satiri(zaman: &str, hata: &str) -> (r: String)
    ensures
        r@ == "["@ + zaman@ + "] HATA: "@ + hata@ + "\n"@,
{
    let mut r = String::from_str("[");
    r.append(zaman);
    r.append("] HATA: ");
    r.append(hata);
    r.append("\n");
    r
}

/// Tema dosyasi ayristirilamadiginda kaydedilen mesaj.
pub fn ayristirma_hatasi_mesaji(hata: &str) -> (r: String)
    ensures
        r@ == "Tema dosyasi ayristirilamadi: "@ + hata@,
{
    let mut r = String::from_str("Tema dosyasi ayristirilamadi: ");
    r.append(hata);
    r
}

/// Tema dosyasi okunamadiginda kaydedilen mesaj.
pub fn okuma_hatasi_mesaji(hata: &str) -> (r: String)
    ensures
        r@ == "Tema dosyasi okunamadi: "@ + hata@,
{
    let mut r = String::from_str("Tema dosyasi okunamadi: ");
    r.append(hata);
    r
}

/// Aktif tema bulunamadiginda ve kayit bos oldugunda kaydedilen mesaj.
pub fn aktif_tema_yok_mesaji(hedef: &str) -> (r: String)
    ensures
        r@ == "Aktif tema '"@ + hedef@ + "' bulunamadi ve kayit bos; varsayilan koyu kullaniliyor."@,
{
    let mut r = String::from_str("Aktif tema '");
    r.append(hedef);
    r.append("' bulunamadi ve kayit bos; varsayilan koyu kullaniliyor.");
    r
}

/// Linux `.desktop` girdisi: uygulama adi, calistirilabilir ve ikon yolu,
/// pencere sinifi olarak uygulama kimligi.
pub fn desktop_girdisi(exe_yolu: &str, ikon_yolu: &str) -> (r: String)
    ensures
        r@ == "[Desktop Entry]\nType=Application\nName=KavisNet\nExec="@ + exe_yolu@ + "\nIcon="@
            + ikon_yolu@ + "\nStartupWMClass="@ + UYGULAMA_APP_ID@
            + "\nStartupNotify=true\nTerminal=false\nCategories=Utility;\n"@,
{
    let mut r = String::from_str("[Desktop Entry]\nType=Application\nName=KavisNet\nExec=");
    r.append(exe_yolu);
    r.append("\nIcon=");
    r.append(ikon_yolu);
    r.append("\nStartupWMClass=");
    r.append(UYGULAMA_APP_ID);
    r.append("\nStartupNotify=true\nTerminal=false\nCategories=Utility;\n");
    r
}

/// Ikon dosyasi yeniden yazilmali mi: dosya yoksa ya da boyutu gomulu
/// veriden farkliysa.
pub fn ikon_guncellenmeli(mevcut_boyut: Option<u64>, veri_boyutu: usize) -> (r: bool)
    ensures
        r == (match mevcut_boyut {
            Some(b) => b as usize != veri_boyutu,
            None => true,
        }),
{
    match mevcut_boyut {
        Some(b) => b as usize != veri_boyutu,
        None => true,
    }
}

/// `.desktop` dosyasi yeniden yazilmali mi: okunamiyorsa ya da icerigi farkliysa.
pub fn desktop_guncellenmeli(mevcut: Option<&str>, yeni: &str) -> (r: bool)
    ensures
        r == (match mevcut {
            Some(m) => m@ != yeni@,
            None => true,
        }),
{
    match mevcut {
        Some(m) => !crate::metin::metinler_esit(m, yeni),
        None => true,
    }
}

} // verus!
