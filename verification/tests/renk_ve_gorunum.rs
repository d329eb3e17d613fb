use kavisnet::gorunum::{
    GorunumIzleyici, Gorunum, PencereAlfasi, PencereGorunumu, PencereModu, Platform,
    SistemGorunumu, SistemModu, TemaSecimi, linux_blur_karari, pencere_cozumu,
    sistem_blur_destegi, yalnizca_kde_blur_destegi, yalnizca_kde_linux_karari,
};
use kavisnet::renk::{hex_rgba, Rgba};

fn rgba(r: u8, g: u8, b: u8, a: u8) -> Rgba {
    Rgba { r, g, b, a }
}

#[test]
fn hex_alti_basamak_opak() {
    assert_eq!(hex_rgba("#1A1A2E"), rgba(0x1A, 0x1A, 0x2E, 255));
    assert_eq!(hex_rgba("#ededed"), rgba(0xED, 0xED, 0xED, 255));
    assert_eq!(hex_rgba("#000000"), rgba(0, 0, 0, 255));
}

#[test]
fn hex_sekiz_basamak_alfa() {
    assert_eq!(hex_rgba("#11223344"), rgba(0x11, 0x22, 0x33, 0x44));
    assert_eq!(hex_rgba("#FFFFFF00"), rgba(0xFF, 0xFF, 0xFF, 0));
}

#[test]
fn hex_diyezsiz_ve_cok_diyezli() {
    assert_eq!(hex_rgba("5599DD"), rgba(0x55, 0x99, 0xDD, 255));
    assert_eq!(hex_rgba("##FF0000"), rgba(0xFF, 0, 0, 255));
}

#[test]
fn hex_gecersiz_metin_sifir() {
    assert_eq!(hex_rgba("zzz"), rgba(0, 0, 0, 255));
    assert_eq!(hex_rgba(""), rgba(0, 0, 0, 255));
    assert_eq!(hex_rgba("#"), rgba(0, 0, 0, 255));
    assert_eq!(hex_rgba("#12 456"), rgba(0, 0, 0, 255));
    assert_eq!(hex_rgba("#GG000000"), rgba(0, 0, 0, 0));
}

#[test]
fn hex_arti_isareti_kabul_edilir() {
    assert_eq!(hex_rgba("+FF"), rgba(0, 0, 0xFF, 255));
    assert_eq!(hex_rgba("+"), rgba(0, 0, 0, 255));
    assert_eq!(hex_rgba("-FF"), rgba(0, 0, 0, 255));
}

#[test]
fn hex_yedi_basamak_uzun_sayilir() {
    assert_eq!(hex_rgba("#1234567"), rgba(0x01, 0x23, 0x45, 0x67));
}

#[test]
fn hex_u32_tasmasi_sifir() {
    assert_eq!(hex_rgba("#123456789"), rgba(0, 0, 0, 0));
}

#[test]
fn hex_uzunluk_bayt_ile_olculur() {
    // 4 karakter, 8 bayt: uzun bicim, gecersiz oldugundan tamami 0.
    assert_eq!(hex_rgba("\u{e9}\u{e9}\u{e9}\u{e9}"), rgba(0, 0, 0, 0));
    // 2 karakter, 4 bayt: kisa bicim, alfa 255.
    assert_eq!(hex_rgba("\u{e9}\u{e9}"), rgba(0, 0, 0, 255));
}

#[test]
fn varsayilanlar() {
    assert_eq!(Gorunum::default(), Gorunum::Koyu);
    assert_eq!(PencereModu::default(), PencereModu::Otomatik);
    assert_eq!(SistemGorunumu::default(), SistemGorunumu(Gorunum::Koyu));
}

#[test]
fn sistem_modundan_gorunum() {
    assert_eq!(SistemGorunumu::moddan(SistemModu::Koyu).0, Gorunum::Koyu);
    assert_eq!(SistemGorunumu::moddan(SistemModu::Aydinlik).0, Gorunum::Aydinlik);
    assert_eq!(SistemGorunumu::moddan(SistemModu::Belirtilmemis).0, Gorunum::Koyu);
}

#[test]
fn tema_secimi_hedef_ad() {
    let sabit = TemaSecimi::Sabit { varyant: "KavisNet Koyu".to_string() };
    assert_eq!(sabit.hedef_ad(Gorunum::Aydinlik), "KavisNet Koyu");
    let sistem = TemaSecimi::Sistem {
        aydinlik: "KavisNet Aydinlik".to_string(),
        koyu: "KavisNet Koyu".to_string(),
    };
    assert_eq!(sistem.hedef_ad(Gorunum::Aydinlik), "KavisNet Aydinlik");
    assert_eq!(sistem.hedef_ad(Gorunum::Koyu), "KavisNet Koyu");
}

#[test]
fn blur_destegi_platformlar() {
    assert_eq!(sistem_blur_destegi(Platform::MacOs, "", ""), PencereGorunumu::Bulanik);
    assert_eq!(sistem_blur_destegi(Platform::Windows, "x11", "GNOME"), PencereGorunumu::Bulanik);
}

#[test]
fn blur_destegi_linux_masaustleri() {
    assert_eq!(sistem_blur_destegi(Platform::Linux, "wayland", "KDE"), PencereGorunumu::Bulanik);
    assert_eq!(sistem_blur_destegi(Platform::Linux, "wayland", "Hyprland"), PencereGorunumu::Bulanik);
    assert_eq!(sistem_blur_destegi(Platform::Linux, "wayland", "wayfire"), PencereGorunumu::Bulanik);
    assert_eq!(sistem_blur_destegi(Platform::Linux, "wayland", "ubuntu:GNOME"), PencereGorunumu::Seffaf);
    assert_eq!(sistem_blur_destegi(Platform::Linux, "x11", "KDE"), PencereGorunumu::Seffaf);
    assert_eq!(sistem_blur_destegi(Platform::Linux, "", ""), PencereGorunumu::Seffaf);
}

#[test]
fn blur_destegi_kucuk_harfli_masaustu_buyutulur() {
    // Masaustu adi once buyuk harfe cevrilir; cevrilmeseydi "kde" taninmazdi.
    assert_eq!(sistem_blur_destegi(Platform::Linux, "wayland", "kde"), PencereGorunumu::Bulanik);
    assert_eq!(sistem_blur_destegi(Platform::Linux, "wayland", "plasma:kde"), PencereGorunumu::Bulanik);
}

#[test]
fn kde_disindakiler_dar_kuralda_seffaf() {
    assert_eq!(yalnizca_kde_blur_destegi(Platform::Linux, "wayland", "kde"), PencereGorunumu::Bulanik);
    assert_eq!(yalnizca_kde_blur_destegi(Platform::Linux, "wayland", "Hyprland"), PencereGorunumu::Seffaf);
    assert_eq!(yalnizca_kde_blur_destegi(Platform::Windows, "", ""), PencereGorunumu::Bulanik);
}

#[test]
fn pencere_cozumu_ust_sinir_kapali_opak() {
    let c = pencere_cozumu(false, PencereModu::Seffaf, PencereGorunumu::Bulanik);
    assert_eq!(c.gorunum, PencereGorunumu::Opak);
    assert_eq!(c.alfa, PencereAlfasi::Tam);
    assert!(!c.kavisli);
}

#[test]
fn pencere_cozumu_modlar() {
    let c = pencere_cozumu(true, PencereModu::Otomatik, PencereGorunumu::Bulanik);
    assert_eq!(c.gorunum, PencereGorunumu::Bulanik);
    assert_eq!(c.alfa, PencereAlfasi::BlurSeffafligi);
    assert!(c.kavisli);
    let c = pencere_cozumu(true, PencereModu::Otomatik, PencereGorunumu::Seffaf);
    assert_eq!(c.alfa, PencereAlfasi::SeffafSeffafligi);
    let c = pencere_cozumu(true, PencereModu::Seffaf, PencereGorunumu::Bulanik);
    assert_eq!(c.gorunum, PencereGorunumu::Seffaf);
    let c = pencere_cozumu(true, PencereModu::Opak, PencereGorunumu::Bulanik);
    assert_eq!(c.gorunum, PencereGorunumu::Opak);
    assert_eq!(c.alfa, PencereAlfasi::Tam);
    assert!(!c.kavisli);
}

#[test]
fn gorunum_yalnizca_degisince_bildirilir() {
    let mut iz = GorunumIzleyici::yeni();
    assert!(iz.degisti_mi(PencereGorunumu::Bulanik));
    assert!(!iz.degisti_mi(PencereGorunumu::Bulanik));
    assert!(iz.degisti_mi(PencereGorunumu::Opak));
    assert_eq!(iz.son, Some(PencereGorunumu::Opak));
}

#[test]
fn linux_blur_karari_buyuk_harfli_ad_bekler() {
    assert_eq!(linux_blur_karari("wayland", "KDE"), PencereGorunumu::Bulanik);
    assert_eq!(linux_blur_karari("wayland", "PLASMA:HYPRLAND"), PencereGorunumu::Bulanik);
    assert_eq!(linux_blur_karari("wayland", "WAYFIRE"), PencereGorunumu::Bulanik);
    assert_eq!(linux_blur_karari("wayland", "kde"), PencereGorunumu::Seffaf);
    assert_eq!(linux_blur_karari("wayland", "GNOME"), PencereGorunumu::Seffaf);
    assert_eq!(linux_blur_karari("x11", "KDE"), PencereGorunumu::Seffaf);
}

#[test]
fn kde_linux_karari() {
    assert_eq!(yalnizca_kde_linux_karari("wayland", "KDE"), PencereGorunumu::Bulanik);
    assert_eq!(yalnizca_kde_linux_karari("wayland", "HYPRLAND"), PencereGorunumu::Seffaf);
    assert_eq!(yalnizca_kde_linux_karari("wayland", "kde"), PencereGorunumu::Seffaf);
    assert_eq!(yalnizca_kde_linux_karari("Wayland", "KDE"), PencereGorunumu::Seffaf);
}
