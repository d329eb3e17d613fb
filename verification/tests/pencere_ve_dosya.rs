use kavisnet::dosya::{
    aktif_tema_yok_mesaji, ayristirma_hatasi_mesaji, desktop_girdisi, desktop_guncellenmeli,
    ikon_guncellenmeli, log_dosya_adi, log_satiri, okuma_hatasi_mesaji, tema_dosyasi_icerigi,
    TEMA_DOSYASI_BASLIGI,
};
use kavisnet::gorunum::Platform;
use kavisnet::izleyici::{olay_ilgili, DosyaOlayiTuru, IzleyiciEylemi, TemaIzleyicisi};
use kavisnet::kontroller::DesteklenenKontroller;
use kavisnet::pencere::{
    golge_kenar_bul, kapatma_istegi, kenar_imleci, pencere_menusu_gosterilmeli, CalismaYuzeyi,
    ImlecBicimi, ResizeKenari, UstBar, UstBarEylemi, UYGULAMA_APP_ID,
};
use kavisnet::varlik::{svg_yollari, Varlik, VarlikKaynagi};

#[test]
fn kenarlar_ve_koseler() {
    assert_eq!(golge_kenar_bul(true, false, true, false), Some(ResizeKenari::SolUst));
    assert_eq!(golge_kenar_bul(true, false, false, true), Some(ResizeKenari::SagUst));
    assert_eq!(golge_kenar_bul(true, false, false, false), Some(ResizeKenari::Ust));
    assert_eq!(golge_kenar_bul(false, true, true, false), Some(ResizeKenari::SolAlt));
    assert_eq!(golge_kenar_bul(false, true, false, true), Some(ResizeKenari::SagAlt));
    assert_eq!(golge_kenar_bul(false, true, false, false), Some(ResizeKenari::Alt));
    assert_eq!(golge_kenar_bul(false, false, true, false), Some(ResizeKenari::Sol));
    assert_eq!(golge_kenar_bul(false, false, false, true), Some(ResizeKenari::Sag));
    assert_eq!(golge_kenar_bul(false, false, false, false), None);
}

#[test]
fn kucuk_pencerede_ust_once_gelir() {
    // Ust ve alt seritler ortusuyorsa ust kazanir.
    assert_eq!(golge_kenar_bul(true, true, true, true), Some(ResizeKenari::SolUst));
    assert_eq!(golge_kenar_bul(true, true, false, false), Some(ResizeKenari::Ust));
}

#[test]
fn imlecler() {
    assert_eq!(kenar_imleci(ResizeKenari::Ust), ImlecBicimi::YukariAsagi);
    assert_eq!(kenar_imleci(ResizeKenari::Alt), ImlecBicimi::YukariAsagi);
    assert_eq!(kenar_imleci(ResizeKenari::Sol), ImlecBicimi::SolSag);
    assert_eq!(kenar_imleci(ResizeKenari::SolUst), ImlecBicimi::SolUstSagAlt);
    assert_eq!(kenar_imleci(ResizeKenari::SagAlt), ImlecBicimi::SolUstSagAlt);
    assert_eq!(kenar_imleci(ResizeKenari::SagUst), ImlecBicimi::SagUstSolAlt);
    assert_eq!(kenar_imleci(ResizeKenari::SolAlt), ImlecBicimi::SagUstSolAlt);
}

#[test]
fn ust_bar_tek_tiklama_ve_tasima() {
    let mut u = UstBar::yeni();
    assert_eq!(u.sol_basildi(1, Platform::Linux), UstBarEylemi::TasimayaHazirlan);
    assert!(u.fare_hareket_etti(Platform::Linux));
    // tasima bir kez tuketilir
    assert!(!u.fare_hareket_etti(Platform::Linux));
}

#[test]
fn ust_bar_birakinca_tasima_yok() {
    let mut u = UstBar::yeni();
    u.sol_basildi(1, Platform::Linux);
    u.sol_birakildi();
    assert!(!u.fare_hareket_etti(Platform::Linux));
    u.sol_basildi(1, Platform::Windows);
    assert!(!u.fare_hareket_etti(Platform::Windows));
    assert!(!u.should_move);
}

#[test]
fn ust_bar_cift_tiklama() {
    let mut u = UstBar::yeni();
    assert_eq!(u.sol_basildi(2, Platform::MacOs), UstBarEylemi::BaslikCiftTiklama);
    assert_eq!(u.sol_basildi(2, Platform::Linux), UstBarEylemi::Yakinlastir);
    assert!(!u.should_move);
}

#[test]
fn pencere_menusu() {
    let k = DesteklenenKontroller { kucult: true, buyut: true, pencere_menusu: true };
    assert!(pencere_menusu_gosterilmeli(Platform::Linux, true, k));
    assert!(!pencere_menusu_gosterilmeli(Platform::Linux, false, k));
    assert!(!pencere_menusu_gosterilmeli(Platform::Windows, true, k));
    let yok = DesteklenenKontroller { pencere_menusu: false, ..k };
    assert!(!pencere_menusu_gosterilmeli(Platform::Linux, true, yok));
}

#[test]
fn calisma_yuzeyi_koseleri() {
    let c = CalismaYuzeyi::new();
    let k = c.kose_kavisleri(true, true);
    assert!(k.sag_ust && k.sol_ust);
    let k = c.kose_kavisleri(true, false);
    assert!(k.sag_ust && !k.sol_ust);
    let k = c.kose_kavisleri(false, true);
    assert!(!k.sag_ust && !k.sol_ust);
}

#[test]
fn kapatma_onaylanir() {
    assert!(kapatma_istegi());
    assert_eq!(UYGULAMA_APP_ID, "KavisNet");
}

#[test]
fn dosya_olaylari() {
    assert!(olay_ilgili(true, DosyaOlayiTuru::Degisti));
    assert!(olay_ilgili(true, DosyaOlayiTuru::Olusturuldu));
    assert!(olay_ilgili(true, DosyaOlayiTuru::Silindi));
    assert!(!olay_ilgili(true, DosyaOlayiTuru::Diger));
    assert!(!olay_ilgili(false, DosyaOlayiTuru::Degisti));
}

#[test]
fn izleyici_gecisleri() {
    let mut iz = TemaIzleyicisi::baslat(Some("a = 1".to_string()));
    assert_eq!(iz.okuma_sonucu(Some("a = 1".to_string())), IzleyiciEylemi::Yok);
    assert_eq!(iz.okuma_sonucu(Some("a = 2".to_string())), IzleyiciEylemi::Yenile);
    assert_eq!(iz.okuma_sonucu(Some("a = 2".to_string())), IzleyiciEylemi::Yok);
    assert_eq!(iz.okuma_sonucu(None), IzleyiciEylemi::VarsayilanaDon);
    assert_eq!(iz.okuma_sonucu(Some(String::new())), IzleyiciEylemi::Yok);
    assert_eq!(iz.okuma_sonucu(Some("a = 2".to_string())), IzleyiciEylemi::Yenile);
}

#[test]
fn izleyici_okunamayan_baslangic() {
    let mut iz = TemaIzleyicisi::baslat(None);
    assert_eq!(iz.okuma_sonucu(Some(String::new())), IzleyiciEylemi::Yok);
    assert_eq!(iz.okuma_sonucu(Some("x".to_string())), IzleyiciEylemi::Yenile);
}

#[test]
fn tema_dosyasi_basligi() {
    let icerik = tema_dosyasi_icerigi("ad = \"KavisNet\"\n");
    assert!(icerik.starts_with("# KavisNet Tema Dosyasi\n#\n"));
    assert!(icerik.ends_with("# Seffaflik: 0.0 (gorunmez) - 1.0 (opak)\n\nad = \"KavisNet\"\n"));
    assert_eq!(icerik.len(), TEMA_DOSYASI_BASLIGI.len() + "ad = \"KavisNet\"\n".len());
}

#[test]
fn log_metinleri() {
    assert_eq!(log_dosya_adi("2024-05-01"), "tema_hatalari_2024-05-01.log");
    assert_eq!(log_satiri("10:20:30", "bozuk"), "[10:20:30] HATA: bozuk\n");
    assert_eq!(ayristirma_hatasi_mesaji("x"), "Tema dosyasi ayristirilamadi: x");
    assert_eq!(okuma_hatasi_mesaji("y"), "Tema dosyasi okunamadi: y");
    assert_eq!(
        aktif_tema_yok_mesaji("Gece"),
        "Aktif tema 'Gece' bulunamadi ve kayit bos; varsayilan koyu kullaniliyor."
    );
}

#[test]
fn desktop_girdisi_icerigi() {
    assert_eq!(
        desktop_girdisi("/usr/bin/kavisnet", "/home/u/.local/share/icons/hicolor/512x512/apps/KavisNet.png"),
        "[Desktop Entry]\nType=Application\nName=KavisNet\nExec=/usr/bin/kavisnet\nIcon=/home/u/.local/share/icons/hicolor/512x512/apps/KavisNet.png\nStartupWMClass=KavisNet\nStartupNotify=true\nTerminal=false\nCategories=Utility;\n"
    );
}

#[test]
fn guncelleme_kararlari() {
    assert!(ikon_guncellenmeli(None, 10));
    assert!(ikon_guncellenmeli(Some(9), 10));
    assert!(!ikon_guncellenmeli(Some(10), 10));
    assert!(desktop_guncellenmeli(None, "a"));
    assert!(desktop_guncellenmeli(Some("b"), "a"));
    assert!(!desktop_guncellenmeli(Some("a"), "a"));
}

fn kaynak() -> VarlikKaynagi {
    let yollar = svg_yollari();
    let varliklar = yollar
        .iter()
        .enumerate()
        .map(|(i, y)| Varlik { yol: y.to_string(), veri: vec![i as u8] })
        .collect();
    VarlikKaynagi::yeni(varliklar)
}

#[test]
fn varlik_yukleme() {
    let k = kaynak();
    assert_eq!(k.load("ikonlar/kontrol_buyut.svg"), Some(&vec![1u8]));
    assert_eq!(k.load("ikonlar/kontrol_kapat.svg"), Some(&vec![3u8]));
    assert_eq!(k.load("ikonlar/yok.svg"), None);
    assert_eq!(k.load("ikonlar"), None);
}

#[test]
fn varlik_listeleme() {
    let k = kaynak();
    assert_eq!(k.list("ikonlar/").len(), 4);
    assert_eq!(k.list(""), svg_yollari().iter().map(|s| s.to_string()).collect::<Vec<_>>());
    assert_eq!(k.list("ikonlar/kontrol_k"), vec!["ikonlar/kontrol_kucult.svg".to_string(), "ikonlar/kontrol_kapat.svg".to_string()]);
    assert!(k.list("resimler/").is_empty());
}
