use kavisnet::gorunum::{Gorunum, TemaSecimi};
use kavisnet::kayit::{kayit_kur, secim_ile_aktif_tema, Tema, TemaKaydi};

fn tema(ad: &str, gorunum: Gorunum, gorsel: u32) -> Tema<u32> {
    Tema { ad: ad.to_string(), gorunum, gorsel }
}

fn varsayilan() -> TemaKaydi<u32> {
    TemaKaydi::varsayilan_ile(
        tema("KavisNet Koyu", Gorunum::Koyu, 1),
        tema("KavisNet Aydinlik", Gorunum::Aydinlik, 2),
    )
}

#[test]
fn bos_kayit() {
    let k: TemaKaydi<u32> = TemaKaydi::yeni_bos();
    assert!(k.adlar().is_empty());
    assert!(k.ilk().is_none());
    assert!(k.al("KavisNet Koyu").is_none());
}

#[test]
fn varsayilan_iki_tema_sirasiyla() {
    let k = varsayilan();
    assert_eq!(k.adlar(), vec!["KavisNet Koyu".to_string(), "KavisNet Aydinlik".to_string()]);
    assert_eq!(k.ilk().unwrap().gorsel, 1);
}

#[test]
fn kaydedilen_adiyla_bulunur() {
    let mut k = varsayilan();
    k.kaydet(tema("Gece", Gorunum::Koyu, 7));
    let t = k.al("Gece").unwrap();
    assert_eq!(t.gorsel, 7);
    assert_eq!(t.gorunum, Gorunum::Koyu);
    assert_eq!(k.adlar().len(), 3);
    assert_eq!(k.adlar()[2], "Gece");
}

#[test]
fn ayni_ad_yerinde_ustune_yazilir() {
    let mut k = varsayilan();
    k.kaydet(tema("KavisNet Koyu", Gorunum::Koyu, 99));
    assert_eq!(k.adlar(), vec!["KavisNet Koyu".to_string(), "KavisNet Aydinlik".to_string()]);
    assert_eq!(k.al("KavisNet Koyu").unwrap().gorsel, 99);
    assert_eq!(k.al("KavisNet Aydinlik").unwrap().gorsel, 2);
}

#[test]
fn ayni_temayi_iki_kez_kaydetmek_etkisiz() {
    let mut k = varsayilan();
    k.kaydet(tema("Gece", Gorunum::Koyu, 7));
    k.kaydet(tema("Gece", Gorunum::Koyu, 7));
    assert_eq!(k.adlar().len(), 3);
    assert_eq!(k.al("Gece").unwrap().gorsel, 7);
}

#[test]
fn ad_tam_eslesmeli() {
    let k = varsayilan();
    assert!(k.al("KavisNet").is_none());
    assert!(k.al("kavisnet koyu").is_none());
}

#[test]
fn gorunume_gore_suzer() {
    let mut k = varsayilan();
    k.kaydet(tema("Gece", Gorunum::Koyu, 7));
    k.kaydet(tema("Gun", Gorunum::Aydinlik, 8));
    let koyular: Vec<u32> = k.gorunume_gore(Gorunum::Koyu).iter().map(|t| t.gorsel).collect();
    assert_eq!(koyular, vec![1, 7]);
    let aydinlar: Vec<u32> = k.gorunume_gore(Gorunum::Aydinlik).iter().map(|t| t.gorsel).collect();
    assert_eq!(aydinlar, vec![2, 8]);
}

#[test]
fn hepsini_kaydet_sirayla() {
    let mut k = varsayilan();
    k.hepsini_kaydet(vec![
        tema("A", Gorunum::Koyu, 10),
        tema("KavisNet Aydinlik", Gorunum::Aydinlik, 20),
        tema("A", Gorunum::Aydinlik, 30),
    ]);
    assert_eq!(
        k.adlar(),
        vec!["KavisNet Koyu".to_string(), "KavisNet Aydinlik".to_string(), "A".to_string()]
    );
    assert_eq!(k.al("A").unwrap().gorsel, 30);
    assert_eq!(k.al("A").unwrap().gorunum, Gorunum::Aydinlik);
    assert_eq!(k.al("KavisNet Aydinlik").unwrap().gorsel, 20);
}

#[test]
fn kayit_kur_dosyadakileri_ekler() {
    let k = kayit_kur(
        tema("KavisNet Koyu", Gorunum::Koyu, 1),
        tema("KavisNet Aydinlik", Gorunum::Aydinlik, 2),
        vec![tema("Ozel", Gorunum::Koyu, 5)],
    );
    assert_eq!(k.adlar().len(), 3);
    assert_eq!(k.al("Ozel").unwrap().gorsel, 5);
}

#[test]
fn aktif_tema_sistem_secimi() {
    let k = varsayilan();
    let secim = TemaSecimi::Sistem {
        aydinlik: "KavisNet Aydinlik".to_string(),
        koyu: "KavisNet Koyu".to_string(),
    };
    assert_eq!(secim_ile_aktif_tema(&secim, Gorunum::Aydinlik, &k).unwrap().gorsel, 2);
    assert_eq!(secim_ile_aktif_tema(&secim, Gorunum::Koyu, &k).unwrap().gorsel, 1);
}

#[test]
fn aktif_tema_bulunamazsa_ilk() {
    let mut k: TemaKaydi<u32> = TemaKaydi::yeni_bos();
    k.kaydet(tema("Gun", Gorunum::Aydinlik, 8));
    k.kaydet(tema("Gece", Gorunum::Koyu, 7));
    let secim = TemaSecimi::Sabit { varyant: "Yok".to_string() };
    assert_eq!(secim_ile_aktif_tema(&secim, Gorunum::Koyu, &k).unwrap().gorsel, 8);
}

#[test]
fn aktif_tema_bos_kayitta_yok() {
    let k: TemaKaydi<u32> = TemaKaydi::yeni_bos();
    let secim = TemaSecimi::Sabit { varyant: "KavisNet Koyu".to_string() };
    assert!(secim_ile_aktif_tema(&secim, Gorunum::Koyu, &k).is_none());
}
