use kavisnet::gorunum::Platform;
use kavisnet::kontroller::{
    gsettings_ciktisini_coz, gsettings_metninden_duzen, kontrol_destekleniyor_mu, pencere_kontrolleri_taraf, yenilenmeli,
    DesteklenenKontroller, KontrolDuzeni, KontrolDuzeniOnbellegi, KontrolTarafi, KontrolTipi,
    PencereKontrolAlani,
};

use KontrolTipi::{Buyut, Kapat, Kucult};

const HEPSI: DesteklenenKontroller =
    DesteklenenKontroller { kucult: true, buyut: true, pencere_menusu: true };

#[test]
fn standart_duzen() {
    let d = KontrolDuzeni::standart();
    assert_eq!(d.sol, [None, None, None]);
    assert_eq!(d.sag, [Some(Kucult), Some(Buyut), Some(Kapat)]);
}

#[test]
fn gnome_varsayilan_duzeni() {
    let d = KontrolDuzeni::metinden_coz("appmenu:minimize,maximize,close").unwrap();
    assert_eq!(d.sol, [None, None, None]);
    assert_eq!(d.sag, [Some(Kucult), Some(Buyut), Some(Kapat)]);
}

#[test]
fn macos_tarzi_sol_duzen() {
    let d = KontrolDuzeni::metinden_coz("close,minimize,maximize:").unwrap();
    assert_eq!(d.sol, [Some(Kapat), Some(Kucult), Some(Buyut)]);
    assert_eq!(d.sag, [None, None, None]);
}

#[test]
fn iki_nokta_yoksa_hepsi_sagda() {
    let d = KontrolDuzeni::metinden_coz("close").unwrap();
    assert_eq!(d.sol, [None, None, None]);
    assert_eq!(d.sag, [Some(Kapat), None, None]);
}

#[test]
fn bosluklar_kirpilir() {
    let d = KontrolDuzeni::metinden_coz(" close , maximize\t: minimize ").unwrap();
    assert_eq!(d.sol, [Some(Kapat), Some(Buyut), None]);
    assert_eq!(d.sag, [Some(Kucult), None, None]);
}

#[test]
fn tekrar_eden_butonlar_bir_kez() {
    let d = KontrolDuzeni::metinden_coz("minimize,minimize:minimize,close,close").unwrap();
    assert_eq!(d.sol, [Some(Kucult), None, None]);
    assert_eq!(d.sag, [Some(Kapat), None, None]);
}

#[test]
fn ikinci_iki_nokta_sag_tarafin_parcasi() {
    let d = KontrolDuzeni::metinden_coz("close:minimize:maximize").unwrap();
    assert_eq!(d.sol, [Some(Kapat), None, None]);
    // "minimize:maximize" tek parcadir ve taninmaz.
    assert_eq!(d.sag, [None, None, None]);
}

#[test]
fn taninmayan_duzen_yok() {
    assert!(KontrolDuzeni::metinden_coz("").is_none());
    assert!(KontrolDuzeni::metinden_coz("appmenu:").is_none());
    assert!(KontrolDuzeni::metinden_coz("Close,MINIMIZE").is_none());
}

#[test]
fn gnome_adlari() {
    assert_eq!(KontrolTipi::gnome_adindan_coz("minimize"), Some(Kucult));
    assert_eq!(KontrolTipi::gnome_adindan_coz("maximize"), Some(Buyut));
    assert_eq!(KontrolTipi::gnome_adindan_coz("close"), Some(Kapat));
    assert_eq!(KontrolTipi::gnome_adindan_coz("appmenu"), None);
    assert_eq!(KontrolTipi::gnome_adindan_coz(" close"), None);
}

#[test]
fn tip_bilgileri() {
    assert_eq!(Kucult.siralama_indeksi(), 0);
    assert_eq!(Buyut.siralama_indeksi(), 1);
    assert_eq!(Kapat.siralama_indeksi(), 2);
    assert_eq!(Kucult.simge(false), "\u{2013}");
    assert_eq!(Buyut.simge(false), "\u{25A1}");
    assert_eq!(Buyut.simge(true), "\u{2750}");
    assert_eq!(Kapat.simge(true), "\u{2715}");
    assert_eq!(Kucult.grup_adi(), "kontrol-kucult");
    assert_eq!(Buyut.grup_adi(), "kontrol-buyut");
    assert_eq!(Kapat.grup_adi(), "kontrol-kapat");
    assert_eq!(Kucult.window_control(), PencereKontrolAlani::Kucult);
    assert_eq!(Kapat.window_control(), PencereKontrolAlani::Kapat);
}

#[test]
fn gsettings_ciktisi() {
    let d = gsettings_ciktisini_coz(true, b"'appmenu:minimize,close'\n").unwrap();
    assert_eq!(d.sol, [None, None, None]);
    assert_eq!(d.sag, [Some(Kucult), Some(Kapat), None]);
    let d = gsettings_ciktisini_coz(true, b"  \"close:\"  ").unwrap();
    assert_eq!(d.sol, [Some(Kapat), None, None]);
}

#[test]
fn gsettings_basarisiz_ya_da_bos() {
    assert!(gsettings_ciktisini_coz(false, b"'appmenu:close'").is_none());
    assert!(gsettings_ciktisini_coz(true, b"").is_none());
    assert!(gsettings_ciktisini_coz(true, b"\xff\xfe").is_none());
}

#[test]
fn onbellek_tazeleme() {
    assert!(!yenilenmeli(1_999_999_999));
    assert!(yenilenmeli(2_000_000_000));

    // Ilk istek: okuma basarisiz, standart duzen; zamanlayici 100'de.
    let mut o = KontrolDuzeniOnbellegi::ilk(100, None);
    assert_eq!(o.son_yenileme, 100);
    assert_eq!(o.duzen.sol, [None, None, None]);
    assert_eq!(o.duzen.sag, [Some(Kucult), Some(Buyut), Some(Kapat)]);

    // Iki saniye dolmadan: okuma yapilmaz, verilen sonuc dikkate alinmaz.
    assert!(!o.yeniden_okunmali_mi(2_000_000_099));
    let d = o.istek(2_000_000_099, KontrolDuzeni::metinden_coz("close:"));
    assert_eq!(d.sol, [None, None, None]);
    assert_eq!(o.son_yenileme, 100);

    // Iki saniye doldu: basarili okuma duzeni degistirir, zamanlayici sifirlanir.
    assert!(o.yeniden_okunmali_mi(2_000_000_100));
    let d = o.istek(2_000_000_100, KontrolDuzeni::metinden_coz("close:"));
    assert_eq!(d.sol, [Some(Kapat), None, None]);
    assert_eq!(o.son_yenileme, 2_000_000_100);

    // Yeniden doldu ama okuma basarisiz: eski duzen kalir, zamanlayici yine sifirlanir.
    let d = o.istek(4_500_000_000, None);
    assert_eq!(d.sol, [Some(Kapat), None, None]);
    assert_eq!(o.son_yenileme, 4_500_000_000);
    assert!(!o.yeniden_okunmali_mi(6_000_000_000));

    // Saat geri gitmis gorunurse gecen sure sifir sayilir.
    assert!(!o.yeniden_okunmali_mi(0));
}

#[test]
fn onbellek_ilk_okuma_basarili() {
    let o = KontrolDuzeniOnbellegi::ilk(0, KontrolDuzeni::metinden_coz("close,minimize:maximize"));
    assert_eq!(o.duzen.sol, [Some(Kapat), Some(Kucult), None]);
    assert_eq!(o.duzen.sag, [Some(Buyut), None, None]);
}

#[test]
fn destek_kontrolu() {
    let yok = DesteklenenKontroller { kucult: false, buyut: false, pencere_menusu: false };
    assert!(!kontrol_destekleniyor_mu(Kucult, yok));
    assert!(!kontrol_destekleniyor_mu(Buyut, yok));
    assert!(kontrol_destekleniyor_mu(Kapat, yok));
    assert!(kontrol_destekleniyor_mu(Buyut, HEPSI));
}

#[test]
fn taraf_kontrolleri_platformlara_gore() {
    let d = KontrolDuzeni::metinden_coz("close:minimize,maximize").unwrap();
    assert!(pencere_kontrolleri_taraf(Platform::MacOs, KontrolTarafi::Sag, true, &d, HEPSI).is_empty());
    assert!(pencere_kontrolleri_taraf(Platform::Windows, KontrolTarafi::Sol, true, &d, HEPSI).is_empty());
    assert_eq!(
        pencere_kontrolleri_taraf(Platform::Windows, KontrolTarafi::Sag, false, &d, HEPSI),
        vec![Kucult, Buyut, Kapat]
    );
    assert_eq!(
        pencere_kontrolleri_taraf(Platform::Linux, KontrolTarafi::Sol, true, &d, HEPSI),
        vec![Kapat]
    );
    assert_eq!(
        pencere_kontrolleri_taraf(Platform::Linux, KontrolTarafi::Sag, true, &d, HEPSI),
        vec![Kucult, Buyut]
    );
    assert!(pencere_kontrolleri_taraf(Platform::Linux, KontrolTarafi::Sag, false, &d, HEPSI).is_empty());
}

#[test]
fn desteklenmeyenler_gosterilmez() {
    let d = KontrolDuzeni::standart();
    let yalniz_kucult = DesteklenenKontroller { kucult: true, buyut: false, pencere_menusu: false };
    assert_eq!(
        pencere_kontrolleri_taraf(Platform::Linux, KontrolTarafi::Sag, true, &d, yalniz_kucult),
        vec![Kucult, Kapat]
    );
    assert_eq!(
        pencere_kontrolleri_taraf(Platform::Windows, KontrolTarafi::Sag, true, &d, yalniz_kucult),
        vec![Kucult, Kapat]
    );
}

#[test]
fn gsettings_metni_kirpilip_ayristirilir() {
    let d = gsettings_metninden_duzen("'appmenu:minimize,close'\n").unwrap();
    assert_eq!(d.sol, [None, None, None]);
    assert_eq!(d.sag, [Some(Kucult), Some(Kapat), None]);
    let d = gsettings_metninden_duzen(" \"close,maximize:\" ").unwrap();
    assert_eq!(d.sol, [Some(Kapat), Some(Buyut), None]);
    assert_eq!(d.sag, [None, None, None]);
    assert!(gsettings_metninden_duzen("''").is_none());
    assert!(gsettings_metninden_duzen("\u{fffd}").is_none());
}
