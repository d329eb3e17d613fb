//! KavisNet masaustu kabugunun dogrulanmis cekirdegi: tema secimi ve kaydi,
//! hex renk cozumleme, pencere kontrol duzeni ayristirma ve pencere
//! davranis kararlari.

pub mod metin;
pub mod renk;
pub mod gorunum;
pub mod kayit;
pub mod kontroller;
pub mod pencere;
pub mod dosya;
pub mod izleyici;
pub mod varlik;
